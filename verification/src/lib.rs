//! Visibility-driven control of a local-network service advertisement.
//!
//! The crate holds the decisions of an advertiser: which daemon call follows
//! which signal, when a run ends and with what result. A driver waits on the
//! signal sources, performs the calls, and reports back how each call went.

pub mod visibility;
pub mod descriptor;
pub mod controller;
pub mod server;
pub mod laws;
