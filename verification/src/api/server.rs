//! Dedicated server endpoints.

use vstd::prelude::*;

use crate::api::{numbered, plain_call, Call, CallView};
use crate::transport::Method;

verus! {

/// A dedicated server as returned by the Robot API.
///
/// Only the most commonly used fields are modelled; the Robot API returns many
/// more, which are ignored when decoding.
#[derive(Debug, Clone, PartialEq, Eq)]
pub struct Server {
    /// Server number, unique within the account.
    pub server_number: u32,
    /// Server name.
    pub server_name: String,
    /// Primary IPv4 address.
    pub server_ip: String,
    /// Assigned IPv6 network, if reported.
    pub server_ipv6_net: Option<String>,
    /// Product name, if reported.
    pub product: Option<String>,
    /// Current status, if reported.
    pub status: Option<String>,
    /// Datacenter, if reported.
    pub dc: Option<String>,
}

/// The request that lists all servers: `GET /server`, answered by an array of
/// `{"server": {...}}` envelopes.
pub fn list_call() -> (c: Call)
    ensures
        c@ == (CallView { method: Method::Get, path: "/server"@, body: None }),
{
    plain_call(Method::Get, "/server".to_owned())
}

/// The request that fetches server `number`: `GET /server/{number}`, answered
/// by one `{"server": {...}}` envelope.
pub fn get_call(number: u32) -> (c: Call)
    ensures
        c@ == (CallView {
            method: Method::Get,
            path: crate::api::numbered_path("/server/"@, number as nat, ""@),
            body: None,
        }),
{
    plain_call(Method::Get, numbered("/server/", number as u64, ""))
}

} // verus!
