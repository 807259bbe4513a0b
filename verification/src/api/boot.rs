//! Boot configuration endpoints (rescue system).

use vstd::prelude::*;

use crate::api::{numbered, perform, plain_call, push_repeated, Call, CallView};
use crate::client::RobotClient;
use crate::error::Result;
use crate::form::encode_form;
use crate::transport::{Method, Transport};

verus! {

/// Rescue system configuration for a server.
#[derive(Debug, Clone, PartialEq, Eq)]
pub struct Rescue {
    /// Server number.
    pub server_number: u32,
    /// Operating system of the rescue system, if reported.
    pub os: Option<String>,
    /// Architecture (32 or 64), if reported.
    pub arch: Option<u32>,
    /// Whether the rescue system is currently active.
    pub active: Option<bool>,
    /// Generated rescue password, present while active.
    pub password: Option<String>,
}

/// The path of the rescue configuration of server `number`.
pub open spec fn rescue_path(number: u32) -> Seq<char> {
    crate::api::numbered_path("/boot/"@, number as nat, "/rescue"@)
}

/// The fields that activate a rescue system.
pub open spec fn activation_fields(os: Seq<char>, arch: Seq<char>, keys: Seq<Seq<char>>) -> Seq<
    (Seq<char>, Seq<char>),
> {
    seq![("os"@, os), ("arch"@, arch)] + crate::api::repeated("authorized_key"@, keys)
}

/// The request that fetches the rescue configuration of server `number`:
/// `GET /boot/{number}/rescue`, answered by a `{"rescue": {...}}` envelope.
pub fn rescue_call(number: u32) -> (c: Call)
    ensures
        c@ == (CallView { method: Method::Get, path: rescue_path(number), body: None }),
{
    plain_call(Method::Get, numbered("/boot/", number as u64, "/rescue"))
}

/// The request that activates the rescue system of server `number`:
/// `POST /boot/{number}/rescue` with `os`, `arch` and one `authorized_key`
/// field per key, which lets the server boot into rescue with SSH access and
/// no password.
pub fn activate_rescue_call(number: u32, os: &str, arch: &str, authorized_keys: &[String]) -> (c:
    Call)
    ensures
        c@ == (CallView {
            method: Method::Post,
            path: rescue_path(number),
            body: Some(crate::form::encode_fields(activation_fields(os@, arch@, crate::api::texts(authorized_keys@)))),
        }),
{
    let mut form: Vec<(&str, &str)> = Vec::new();
    form.push(("os", os));
    form.push(("arch", arch));
    assert(crate::form::form_view(form@) =~= seq![("os"@, os@), ("arch"@, arch@)]);
    push_repeated(&mut form, "authorized_key", authorized_keys);
    let body = encode_form(form.as_slice());
    Call { method: Method::Post, path: numbered("/boot/", number as u64, "/rescue"), body: Some(body) }
}

/// The activation request of [`activate_rescue_call`] is a `POST` to
/// `/boot/{number}/rescue` whose decoded body holds the `os` field, the `arch`
/// field, then one `authorized_key` field per key, in the order given: no key
/// is dropped, repeated or reordered.
pub proof fn law_activation_sends_every_key(
    number: u32,
    os: Seq<char>,
    arch: Seq<char>,
    keys: Seq<Seq<char>>,
    c: CallView,
)
    requires
        c == (CallView {
            method: Method::Post,
            path: rescue_path(number),
            body: Some(crate::form::encode_fields(activation_fields(os, arch, keys))),
        }),
    ensures
        c.method == Method::Post,
        c.path == "/boot/"@ + crate::text::decimal(number as nat) + "/rescue"@,
        c.body is Some,
        ({
            let d = crate::form::decode_form(c.body->0);
            &&& d.len() == 2 + keys.len()
            &&& d[0] == (vstd::utf8::encode_utf8("os"@), vstd::utf8::encode_utf8(os))
            &&& d[1] == (vstd::utf8::encode_utf8("arch"@), vstd::utf8::encode_utf8(arch))
            &&& forall|i: int|
                0 <= i < keys.len() ==> #[trigger] d[2 + i] == (
                    vstd::utf8::encode_utf8("authorized_key"@),
                    vstd::utf8::encode_utf8(keys[i]),
                )
        }),
{
    let fields = activation_fields(os, arch, keys);
    crate::form::law_form_roundtrip(fields);
    let d = crate::form::decode_form(c.body->0);
    assert forall|i: int| 0 <= i < keys.len() implies #[trigger] d[2 + i] == (
        vstd::utf8::encode_utf8("authorized_key"@),
        vstd::utf8::encode_utf8(keys[i]),
    ) by {
        assert(fields[2 + i] == ("authorized_key"@, keys[i]));
    }
}

/// The request that deactivates the rescue system of server `number`:
/// `DELETE /boot/{number}/rescue`.
pub fn deactivate_rescue_call(number: u32) -> (c: Call)
    ensures
        c@ == (CallView { method: Method::Delete, path: rescue_path(number), body: None }),
{
    plain_call(Method::Delete, numbered("/boot/", number as u64, "/rescue"))
}

/// Deactivates the rescue system for a server: sends
/// [`deactivate_rescue_call`] once.
///
/// # Errors
///
/// Returns [`crate::Error::Api`] for a non-success status,
/// [`crate::Error::RateLimited`] for HTTP 429 and the transport's error when
/// no response was obtained.
pub fn deactivate_rescue<T: Transport>(client: &RobotClient<T>, number: u32) -> (r: Result<()>)
    requires
        client.can_send(),
    ensures
        r matches Err(e) ==> crate::client::request_failure(e@),
        crate::client::sent_discarding(*client, Method::Delete, rescue_path(number), None, r),
{
    perform(client, deactivate_rescue_call(number))
}

} // verus!
