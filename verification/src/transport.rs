//! Transport errors and the LAN and relay transports' addressing.
use vstd::prelude::*;
use crate::client::format::{push_chars, push_str};
use crate::text::{chars_of, owned, string_from_chars};

verus! {

/// Why a transport operation failed.
#[derive(Debug)]
pub enum TransportError {
    BindFailed(String),
    ConnectionFailed(String),
    ServerError(String),
    NotImplemented(String),
    Other(String),
}

/// Client that connects to a LAN address via raw TCP (gRPC over h2c).
pub struct LanTransportClient;

impl LanTransportClient {
    pub fn new() -> (r: Self) {
        LanTransportClient
    }

    /// The endpoint URI for a server address such as `192.168.1.42:9050`.
    pub fn endpoint_uri(&self, address: &str) -> (uri: String)
        ensures
            uri@ == "http://"@ + address@,
    {
        let mut out: Vec<char> = Vec::new();
        push_str(&mut out, "http://");
        let a = chars_of(address);
        push_chars(&mut out, a.as_slice());
        string_from_chars(out.as_slice())
    }
}

/// The error every relay operation gives: relays are not implemented yet.
pub open spec fn relay_unavailable(e: TransportError) -> bool {
    e matches TransportError::NotImplemented(m) && m@ == "relay transport not implemented yet"@
}

fn not_implemented() -> (e: TransportError)
    ensures
        relay_unavailable(e),
{
    TransportError::NotImplemented(owned("relay transport not implemented yet"))
}

/// Stub transport for future relay-based connectivity.
pub struct RelayTransport;

impl RelayTransport {
    pub fn new() -> (r: Self) {
        RelayTransport
    }

    /// Binding a relay port is not implemented.
    pub fn bind(&self, port: u16) -> (r: Result<u16, TransportError>)
        ensures
            r matches Err(e) && relay_unavailable(e),
    {
        Err(not_implemented())
    }

    /// A relay has no local addresses.
    pub fn local_addresses(&self) -> (v: Vec<String>)
        ensures
            v@.len() == 0,
    {
        Vec::new()
    }
}

/// Stub client for future relay-based connectivity.
pub struct RelayTransportClient;

impl RelayTransportClient {
    pub fn new() -> (r: Self) {
        RelayTransportClient
    }

    /// Connecting through a relay is not implemented.
    pub fn connect(&self, address: &str) -> (r: Result<(), TransportError>)
        ensures
            r matches Err(e) && relay_unavailable(e),
    {
        Err(not_implemented())
    }
}

} // verus!
