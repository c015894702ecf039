use vstd::prelude::*;
use vstd::utf8::{encode_utf8, is_ascii_chars};

verus! {

/// The daemon's description of a service, ready to be registered.
#[verifier::external_type_specification]
#[verifier::external_body]
pub struct ExServiceInfo(mdns_sd::ServiceInfo);

/// The daemon's error.
#[verifier::external_type_specification]
#[verifier::external_body]
pub struct ExDaemonError(mdns_sd::Error);

/// The plain data of the advertised service record.
#[derive(Debug, Clone, PartialEq, Eq)]
pub struct AdvertisementDescriptor {
    pub service_type: String,
    pub instance_name: String,
    pub host_name: String,
    pub port: u16,
    pub properties: Vec<(String, String)>,
}

/// Why a descriptor cannot be handed to the daemon.
#[derive(Debug, Clone, Copy, PartialEq, Eq, Structural)]
pub enum DescriptorError {
    /// An entry of the properties does not fit a TXT record.
    PropertyRejected,
}

/// The protocol identifier under which the service is advertised.
pub open spec fn service_type_text() -> Seq<char> {
    "_FC9F5ED42C8A._tcp.local."@
}

/// The key of the one property that the advertisement carries.
pub open spec fn endpoint_key_text() -> Seq<char> {
    "n"@
}

/// A key and its value fit one string of a TXT record: the key is ASCII and
/// holds no `=`, and key, `=` and value together take at most 255 bytes.
pub open spec fn txt_entry_fits(entry: (String, String)) -> bool {
    &&& is_ascii_chars(entry.0@)
    &&& !entry.0@.contains('=')
    &&& encode_utf8(entry.0@).len() + encode_utf8(entry.1@).len() + 1 <= 255
}

impl AdvertisementDescriptor {
    /// The descriptor that `build_service` makes of these values.
    pub open spec fn describes(
        self,
        instance_name: Seq<char>,
        host_name: Seq<char>,
        endpoint_info: Seq<char>,
        port: u16,
    ) -> bool {
        &&& self.service_type@ == service_type_text()
        &&& self.instance_name@ == instance_name
        &&& self.host_name@ == host_name
        &&& self.port == port
        &&& self.properties@.len() == 1
        &&& self.properties@[0].0@ == endpoint_key_text()
        &&& self.properties@[0].1@ == endpoint_info
    }

    /// Every entry of the properties fits a TXT record.
    pub open spec fn all_entries_fit(self) -> bool {
        forall|i: int|
            0 <= i < self.properties@.len() ==> txt_entry_fits(#[trigger] self.properties@[i])
    }

    /// The first entry of the properties does not fit a TXT record.
    pub open spec fn first_entry_misfits(self) -> bool {
        self.properties@.len() > 0 && !txt_entry_fits(self.properties@[0])
    }

    /// Describes the service with the fixed protocol identifier and a single
    /// property, which holds the endpoint's encoded information.
    pub fn build_service(
        instance_name: String,
        host_name: String,
        endpoint_info: String,
        service_port: u16,
    ) -> (d: Self)
        ensures
            d.describes(instance_name@, host_name@, endpoint_info@, service_port),
    {
        let mut properties: Vec<(String, String)> = Vec::new();
        properties.push(("n".to_owned(), endpoint_info));
        AdvertisementDescriptor {
            service_type: "_FC9F5ED42C8A._tcp.local.".to_owned(),
            instance_name,
            host_name,
            port: service_port,
            properties,
        }
    }

    /// Makes the daemon's description of this service, with addresses that
    /// follow the host's interfaces. The daemon takes the descriptor when
    /// every entry of the properties fits a TXT record, and refuses it when
    /// the first one does not.
    pub fn to_service_info(&self) -> (r: Result<mdns_sd::ServiceInfo, DescriptorError>)
        ensures
            self.all_entries_fit() ==> r is Ok,
            self.first_entry_misfits() ==> r == Err::<mdns_sd::ServiceInfo, _>(
                DescriptorError::PropertyRejected,
            ),
            r is Err ==> r == Err::<mdns_sd::ServiceInfo, _>(DescriptorError::PropertyRejected),
    {
        match new_service_info(self) {
            Ok(info) => Ok(info.enable_addr_auto()),
            Err(_) => Err(DescriptorError::PropertyRejected),
        }
    }
}

/// `mdns_sd::ServiceInfo::new`, called with no fixed address. It parses no
/// address then, keeps the first entry of each key, and fails only on an entry
/// that it kept and that does not fit a TXT record. So it succeeds when all
/// entries fit, and fails when the first entry, which it always keeps, does
/// not.
#[verifier::external_body]
fn new_service_info(desc: &AdvertisementDescriptor) -> (r: Result<
    mdns_sd::ServiceInfo,
    mdns_sd::Error,
>)
    ensures
        desc.all_entries_fit() ==> r is Ok,
        desc.first_entry_misfits() ==> r is Err,
{
    mdns_sd::ServiceInfo::new(
        &desc.service_type,
        &desc.instance_name,
        &desc.host_name,
        "",
        desc.port,
        &desc.properties[..],
    )
}

/// `mdns_sd::ServiceInfo::enable_addr_auto` hands the description back with
/// automatic addresses switched on. Nothing is claimed of the result.
pub assume_specification[ mdns_sd::ServiceInfo::enable_addr_auto ](
    info: mdns_sd::ServiceInfo,
) -> (r: mdns_sd::ServiceInfo)
;

/// A descriptor made by `build_service` is taken by the daemon exactly when
/// the endpoint's information, with its key and the `=`, fits in 255 bytes.
pub proof fn built_descriptor_fits(
    d: AdvertisementDescriptor,
    instance_name: Seq<char>,
    host_name: Seq<char>,
    endpoint_info: Seq<char>,
    port: u16,
)
    requires
        d.describes(instance_name, host_name, endpoint_info, port),
    ensures
        d.all_entries_fit() <==> encode_utf8(endpoint_info).len() <= 253,
        d.first_entry_misfits() <==> encode_utf8(endpoint_info).len() > 253,
{
    reveal_strlit("n");
    let key = d.properties@[0].0@;
    assert(key.len() == 1 && key[0] == 'n');
    assert(is_ascii_chars(key));
    assert(!key.contains('='));
    vstd::utf8::is_ascii_chars_encode_utf8(key);
    assert(encode_utf8(key).len() == 1);
}

} // verus!
