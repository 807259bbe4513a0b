//! Failover IP endpoints.

use vstd::prelude::*;

use crate::api::{form_call, plain_call, prefixed, Call, CallView};

use crate::transport::Method;

verus! {

/// A failover IP address and its current routing target.
#[derive(Debug, Clone, PartialEq, Eq)]
pub struct Failover {
    /// The failover IP address.
    pub ip: String,
    /// Netmask of the failover IP, if reported.
    pub netmask: Option<String>,
    /// Server IP the failover address is currently routed to, if any.
    pub active_server_ip: Option<String>,
    /// Owning server IP, if reported.
    pub server_ip: Option<String>,
}

/// The request that lists all failover IPs: `GET /failover`, answered by an
/// array of `{"failover": {...}}` envelopes.
pub fn list_call() -> (c: Call)
    ensures
        c@ == (CallView { method: Method::Get, path: "/failover"@, body: None }),
{
    plain_call(Method::Get, "/failover".to_owned())
}

/// The request that fetches the failover IP `ip`: `GET /failover/{ip}`.
pub fn get_call(ip: &str) -> (c: Call)
    ensures
        c@ == (CallView { method: Method::Get, path: "/failover/"@ + ip@, body: None }),
{
    plain_call(Method::Get, prefixed("/failover/", ip))
}

/// The request that routes `ip` to `active_server_ip`: `POST /failover/{ip}`
/// with the form `active_server_ip={active_server_ip}`.
pub fn route_call(ip: &str, active_server_ip: &str) -> (c: Call)
    ensures
        c@ == (CallView {
            method: Method::Post,
            path: "/failover/"@ + ip@,
            body: Some(crate::form::encode_fields(seq![("active_server_ip"@, active_server_ip@)])),
        }),
{
    let form = [("active_server_ip", active_server_ip)];
    let c = form_call(Method::Post, prefixed("/failover/", ip), &form);
    assert(crate::form::form_view(form@) =~= seq![("active_server_ip"@, active_server_ip@)]);
    c
}

} // verus!
