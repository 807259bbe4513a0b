//! Typed Robot API endpoints.
//!
//! Each endpoint is described by the request it sends ([`Call`]); endpoints
//! whose answer carries no data are performed here in full.

use vstd::prelude::*;

use crate::form::encode_form;
use crate::text::{push_decimal, push_str};
use crate::client::RobotClient;
use crate::error::Result;
use crate::transport::{Method, Transport};

pub mod boot;
pub mod failover;
pub mod rdns;
pub mod reset;
pub mod server;
pub mod traffic;
pub mod vswitch;

verus! {

/// The request an endpoint sends: method, path below the base URL, and the
/// already encoded form body, if any.
pub struct Call {
    /// HTTP method.
    pub method: Method,
    /// Path below the base URL, starting with `/`.
    pub path: String,
    /// Form-encoded body.
    pub body: Option<String>,
}

/// The model of a [`Call`].
pub struct CallView {
    pub method: Method,
    pub path: Seq<char>,
    pub body: Option<Seq<char>>,
}

impl View for Call {
    type V = CallView;

    open spec fn view(&self) -> CallView {
        CallView { method: self.method, path: self.path@, body: crate::transport::opt_view(self.body) }
    }
}

/// `prefix ++ crate::text::decimal(n) ++ suffix`.
pub open spec fn numbered_path(prefix: Seq<char>, n: nat, suffix: Seq<char>) -> Seq<char> {
    prefix + crate::text::decimal(n) + suffix
}

/// Builds `prefix ++ crate::text::decimal(n) ++ suffix`.
pub fn numbered(prefix: &str, n: u64, suffix: &str) -> (s: String)
    ensures
        s@ == numbered_path(prefix@, n as nat, suffix@),
{
    let mut s = String::new();
    push_str(&mut s, prefix);
    push_decimal(&mut s, n);
    push_str(&mut s, suffix);
    assert(s@ =~= numbered_path(prefix@, n as nat, suffix@));
    s
}

/// `prefix ++ text`.
pub fn prefixed(prefix: &str, text: &str) -> (s: String)
    ensures
        s@ == prefix@ + text@,
{
    let mut s = String::new();
    push_str(&mut s, prefix);
    push_str(&mut s, text);
    s
}

/// The same key paired with each value, in order.
pub open spec fn repeated(key: Seq<char>, values: Seq<Seq<char>>) -> Seq<(Seq<char>, Seq<char>)> {
    values.map_values(|v: Seq<char>| (key, v))
}

/// The decimal forms of numbers.
pub open spec fn decimals(values: Seq<u32>) -> Seq<Seq<char>> {
    values.map_values(|v: u32| crate::text::decimal(v as nat))
}

/// The texts of strings.
pub open spec fn texts(values: Seq<String>) -> Seq<Seq<char>> {
    values.map_values(|v: String| v@)
}

/// Sends `call` once and drops the response.
///
/// # Errors
///
/// As [`RobotClient::attempt`].
pub fn perform<T: Transport>(client: &RobotClient<T>, call: Call) -> (r: Result<()>)
    requires
        client.can_send(),
    ensures
        r matches Err(e) ==> crate::client::request_failure(e@),
        crate::client::sent_discarding(*client, call@.method, call@.path, call@.body, r),
{
    let ghost c = call@;
    let full = client.send(call.method, call.path.as_str(), call.body);
    let ghost g = full;
    let r = match full {
        Ok(_) => Ok(()),
        Err(e) => Err(e),
    };
    assert(crate::client::sent(*client, c.method, c.path, c.body, g) && r == crate::client::discard(g));
    r
}

/// A body-less call.
pub fn plain_call(method: Method, path: String) -> (c: Call)
    ensures
        c@ == (CallView { method, path: path@, body: None }),
{
    Call { method, path, body: None }
}

/// A call with a form body.
pub fn form_call(method: Method, path: String, form: &[(&str, &str)]) -> (c: Call)
    ensures
        c@ == (CallView {
            method,
            path: path@,
            body: Some(crate::form::encode_fields(crate::form::form_view(form@))),
        }),
{
    let body = encode_form(form);
    Call { method, path, body: Some(body) }
}


/// Appends `(key, value)` for each of `values` to `form`.
pub fn push_repeated<'a>(form: &mut Vec<(&'a str, &'a str)>, key: &'a str, values: &'a [String])
    ensures
        crate::form::form_view(final(form)@) == crate::form::form_view(old(form)@) + repeated(
            key@,
            texts(values@),
        ),
{
    let ghost start = crate::form::form_view(form@);
    let mut i: usize = 0;
    while i < values.len()
        invariant
            i <= values@.len(),
            crate::form::form_view(form@) == start + repeated(key@, texts(values@.take(i as int))),
        decreases values@.len() - i,
    {
        let ghost before = form@;
        form.push((key, values[i].as_str()));
        proof {
            assert(texts(values@.take(i + 1)) =~= texts(values@.take(i as int)).push(values@[i as int]@));
            assert(repeated(key@, texts(values@.take(i + 1))) =~= repeated(key@, texts(values@.take(i as int))).push((key@, values@[i as int]@)));
            assert(crate::form::form_view(form@) =~= crate::form::form_view(before).push((key@, values@[i as int]@)));
            assert(crate::form::form_view(form@) =~= start + repeated(key@, texts(values@.take(i + 1))));
        }
        i = i + 1;
    }
    assert(values@.take(i as int) =~= values@);
}

/// The decimal forms of `values`, in order.
pub fn decimal_strings(values: &[u32]) -> (out: Vec<String>)
    ensures
        texts(out@) == decimals(values@),
{
    let mut out: Vec<String> = Vec::new();
    let mut i: usize = 0;
    while i < values.len()
        invariant
            i <= values@.len(),
            texts(out@) == decimals(values@.take(i as int)),
        decreases values@.len() - i,
    {
        let ghost before = out@;
        let d = crate::text::decimal_string(values[i] as u64);
        out.push(d);
        proof {
            assert(texts(out@) =~= texts(before).push(crate::text::decimal(values@[i as int] as nat)));
            assert(decimals(values@.take(i + 1)) =~= decimals(values@.take(i as int)).push(crate::text::decimal(values@[i as int] as nat)));
            assert(texts(out@) =~= decimals(values@.take(i + 1)));
        }
        i = i + 1;
    }
    assert(values@.take(i as int) =~= values@);
    out
}

} // verus!
