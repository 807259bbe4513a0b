//! Reverse DNS endpoints.

use vstd::prelude::*;

use crate::api::{form_call, plain_call, prefixed, Call, CallView};

use crate::transport::Method;

verus! {

/// A reverse DNS entry for an IP address.
#[derive(Debug, Clone, PartialEq, Eq)]
pub struct Rdns {
    /// The IP address the entry belongs to.
    pub ip: String,
    /// The PTR record value, if set.
    pub ptr: Option<String>,
}

/// The request that fetches the entry for `ip`: `GET /rdns/{ip}`, answered by
/// an `{"rdns": {...}}` envelope.
pub fn get_call(ip: &str) -> (c: Call)
    ensures
        c@ == (CallView { method: Method::Get, path: "/rdns/"@ + ip@, body: None }),
{
    plain_call(Method::Get, prefixed("/rdns/", ip))
}

/// The request that sets the PTR record of `ip`: `POST /rdns/{ip}` with the
/// form `ptr={ptr}`, answered by an `{"rdns": {...}}` envelope.
pub fn set_call(ip: &str, ptr: &str) -> (c: Call)
    ensures
        c@ == (CallView {
            method: Method::Post,
            path: "/rdns/"@ + ip@,
            body: Some(crate::form::encode_fields(seq![("ptr"@, ptr@)])),
        }),
{
    let form = [("ptr", ptr)];
    let c = form_call(Method::Post, prefixed("/rdns/", ip), &form);
    assert(crate::form::form_view(form@) =~= seq![("ptr"@, ptr@)]);
    c
}

} // verus!
