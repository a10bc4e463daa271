//! Rover: the decision logic of a small self-hosted PaaS that runs apps on an
//! Android phone, with contracts checked by Verus.
use vstd::prelude::*;

pub mod client;
pub mod error;
pub mod ids;
pub mod manifest;
pub mod num;
pub mod profile;
pub mod proto;
pub mod server;
pub mod status;
pub mod transport;
pub mod text;

verus! {
} // verus!
