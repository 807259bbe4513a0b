//! Traffic statistics endpoint.
//!
//! The Robot API answers with a bare object (no outer envelope):
//!
//! ```json
//! {"type":"month","from":"2023-06-01","to":"2023-06-30",
//!  "data":{"192.0.2.1":{"01":{"in":0.0,"out":0.0,"sum":0.0}}}}
//! ```
//!
//! The volumes are floating-point numbers; decoding and summing them is left
//! to the caller.

use vstd::prelude::*;

use crate::api::{push_repeated, Call, CallView};
use crate::form::encode_form;
use crate::transport::Method;

verus! {

/// The fields of a traffic query.
pub open spec fn query_fields(
    kind: Seq<char>,
    from: Seq<char>,
    to: Seq<char>,
    ips: Seq<Seq<char>>,
) -> Seq<(Seq<char>, Seq<char>)> {
    seq![("type"@, kind), ("from"@, from), ("to"@, to)] + crate::api::repeated("ip[]"@, ips) + seq![
        ("single_values"@, "true"@),
    ]
}

/// The request that queries traffic statistics for `ips` over a range:
/// `POST /traffic` with `type`, `from`, `to`, one `ip[]` per address and
/// `single_values=true`.
///
/// `kind` is one of `day`, `month` or `year`; `from` and `to` are formatted as
/// documented for that range (for example `2023-06-01`).
pub fn query_call(kind: &str, from: &str, to: &str, ips: &[String]) -> (c: Call)
    ensures
        c@ == (CallView {
            method: Method::Post,
            path: "/traffic"@,
            body: Some(crate::form::encode_fields(query_fields(kind@, from@, to@, crate::api::texts(ips@)))),
        }),
{
    let mut form: Vec<(&str, &str)> = Vec::new();
    form.push(("type", kind));
    form.push(("from", from));
    form.push(("to", to));
    assert(crate::form::form_view(form@) =~= seq![("type"@, kind@), ("from"@, from@), ("to"@, to@)]);
    push_repeated(&mut form, "ip[]", ips);
    let ghost before = crate::form::form_view(form@);
    form.push(("single_values", "true"));
    assert(crate::form::form_view(form@) =~= before.push(("single_values"@, "true"@)));
    assert(crate::form::form_view(form@) =~= query_fields(kind@, from@, to@, crate::api::texts(ips@)));
    let body = encode_form(form.as_slice());
    Call { method: Method::Post, path: "/traffic".to_owned(), body: Some(body) }
}

} // verus!
