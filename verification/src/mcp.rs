//! Decisions of the Model Context Protocol server: which tool calls may run,
//! how library errors are reported, and the defaults of optional parameters.

use vstd::prelude::*;

use crate::error::Error;
use crate::text::push_str;

verus! {

/// The refusal of an unconfirmed destructive tool call.
pub open spec fn unconfirmed_message(action: Seq<char>) -> Seq<char> {
    "refusing to "@ + action + ": call again with confirm=true once the user has approved"@
}

/// Lets a destructive tool call run only when it was called with
/// `confirm = true`.
///
/// # Errors
///
/// Returns the refusal message (an invalid-parameters error for the client)
/// when `confirm` is false.
pub fn require_confirm(confirm: bool, action: &str) -> (r: Result<(), String>)
    ensures
        r is Ok <==> confirm,
        r matches Err(m) ==> m@ == unconfirmed_message(action@),
{
    if confirm {
        Ok(())
    } else {
        let mut m = String::new();
        push_str(&mut m, "refusing to ");
        push_str(&mut m, action);
        push_str(&mut m, ": call again with confirm=true once the user has approved");
        assert(m@ =~= unconfirmed_message(action@));
        Err(m)
    }
}

/// How a library error is reported to the MCP client.
#[derive(Debug, Clone, Copy, PartialEq, Eq)]
pub enum ErrorKind {
    /// The resource does not exist (HTTP 404 from the API).
    NotFound,
    /// Any other failure.
    Internal,
}

/// How `e` is reported: an API 404 as "not found", anything else as internal.
pub open spec fn kind_of(e: &Error) -> ErrorKind {
    match e {
        Error::Api { status, .. } => if *status == 404 {
            ErrorKind::NotFound
        } else {
            ErrorKind::Internal
        },
        _ => ErrorKind::Internal,
    }
}

/// Classifies `error` for the MCP client.
pub fn error_kind(error: &Error) -> (k: ErrorKind)
    ensures
        k == kind_of(error),
{
    match error {
        Error::Api { status, .. } => if *status == 404 {
            ErrorKind::NotFound
        } else {
            ErrorKind::Internal
        },
        _ => ErrorKind::Internal,
    }
}

/// Default rescue operating system.
pub fn default_os() -> (s: String)
    ensures
        s@ == "linux"@,
{
    "linux".to_owned()
}

/// Default rescue architecture.
pub fn default_arch() -> (s: String)
    ensures
        s@ == "64"@,
{
    "64".to_owned()
}

/// Default traffic range type.
pub fn default_kind() -> (s: String)
    ensures
        s@ == "month"@,
{
    "month".to_owned()
}

} // verus!
