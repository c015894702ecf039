use mdns_visibility::visibility::Visibility;

#[test]
fn zero_is_visible() {
    assert_eq!(Visibility::from_raw_value(0), Visibility::Visible);
}

#[test]
fn one_is_invisible() {
    assert_eq!(Visibility::from_raw_value(1), Visibility::Invisible);
}

#[test]
fn every_other_byte_is_invisible() {
    let mut value: u8 = 1;
    loop {
        assert_eq!(Visibility::from_raw_value(value), Visibility::Invisible);
        if value == u8::MAX {
            break;
        }
        value += 1;
    }
}

#[test]
fn raw_values_are_zero_and_one() {
    assert_eq!(Visibility::Visible.raw_value(), 0);
    assert_eq!(Visibility::Invisible.raw_value(), 1);
}

#[test]
fn raw_value_reads_back() {
    for v in [Visibility::Visible, Visibility::Invisible] {
        assert_eq!(Visibility::from_raw_value(v.raw_value()), v);
    }
}
