//! Server reset endpoints.

use vstd::prelude::*;

use crate::api::{form_call, numbered, plain_call, Call, CallView};

use crate::transport::Method;

verus! {

/// A reset method accepted by the Robot API.
#[derive(Debug, Clone, Copy, PartialEq, Eq)]
pub enum ResetType {
    /// Software reset.
    Software,
    /// Hardware reset.
    Hardware,
    /// Power cycle.
    Power,
}

/// The API value of a reset method.
pub open spec fn reset_type_name(t: ResetType) -> Seq<char> {
    match t {
        ResetType::Software => "sw"@,
        ResetType::Hardware => "hw"@,
        ResetType::Power => "power"@,
    }
}

impl ResetType {
    /// Returns the API value for the reset method.
    pub fn as_str(self) -> (s: &'static str)
        ensures
            s@ == reset_type_name(self),
    {
        match self {
            ResetType::Software => "sw",
            ResetType::Hardware => "hw",
            ResetType::Power => "power",
        }
    }
}

/// Reset methods available for a server.
#[derive(Debug, Clone, PartialEq, Eq)]
pub struct ResetOptions {
    /// Server number.
    pub server_number: u32,
    /// Available reset methods, as reported by the API.
    pub types: Vec<String>,
}

/// Result of a reset request.
#[derive(Debug, Clone, PartialEq, Eq)]
pub struct ResetResult {
    /// Server number.
    pub server_number: u32,
    /// The reset method that was used.
    pub kind: String,
}

/// The request that lists the reset methods of server `number`:
/// `GET /reset/{number}`, answered by a `{"reset": {...}}` envelope.
pub fn options_call(number: u32) -> (c: Call)
    ensures
        c@ == (CallView {
            method: Method::Get,
            path: crate::api::numbered_path("/reset/"@, number as nat, ""@),
            body: None,
        }),
{
    plain_call(Method::Get, numbered("/reset/", number as u64, ""))
}

/// The request that resets server `number` with method `kind`:
/// `POST /reset/{number}` with the form `type={kind}`, answered by a
/// `{"reset": {...}}` envelope.
pub fn execute_call(number: u32, kind: ResetType) -> (c: Call)
    ensures
        c@ == (CallView {
            method: Method::Post,
            path: crate::api::numbered_path("/reset/"@, number as nat, ""@),
            body: Some(crate::form::encode_fields(seq![("type"@, reset_type_name(kind))])),
        }),
{
    let form = [("type", kind.as_str())];
    let c = form_call(Method::Post, numbered("/reset/", number as u64, ""), &form);
    assert(crate::form::form_view(form@) =~= seq![("type"@, reset_type_name(kind))]);
    c
}

} // verus!
