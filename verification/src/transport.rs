//! HTTP transport abstraction.
//!
//! The [`Transport`] trait keeps the client testable: production code plugs in
//! a blocking HTTP agent, tests inject a mock and never touch the network.

use vstd::prelude::*;

use crate::error::{Error, ErrorView, Result};
use crate::text::push_str;

verus! {

/// Default connect, read and write timeout of the production transport, in seconds.
pub const DEFAULT_TIMEOUT_SECS: u64 = 30;

/// A minimal HTTP request, independent of any HTTP library.
#[derive(Debug, Clone, PartialEq, Eq)]
pub struct HttpRequest {
    /// HTTP method, for example `GET` or `POST`.
    pub method: String,
    /// Fully qualified request URL.
    pub url: String,
    /// Optional request body (already form-encoded).
    pub body: Option<String>,
}

/// The model of an [`HttpRequest`].
pub struct HttpRequestView {
    pub method: Seq<char>,
    pub url: Seq<char>,
    pub body: Option<Seq<char>>,
}

/// The model of an optional text.
pub open spec fn opt_view(s: Option<String>) -> Option<Seq<char>> {
    match s {
        Some(t) => Some(t@),
        None => None,
    }
}

impl View for HttpRequest {
    type V = HttpRequestView;

    open spec fn view(&self) -> HttpRequestView {
        HttpRequestView { method: self.method@, url: self.url@, body: opt_view(self.body) }
    }
}

/// A minimal HTTP response.
#[derive(Debug, Clone, PartialEq, Eq)]
pub struct HttpResponse {
    /// HTTP status code.
    pub status: u16,
    /// Response body as UTF-8 text.
    pub body: String,
}

/// A failure of the transport itself: no response could be obtained
/// (`Transport`), or its body could not be read as text (`Decode`).
pub open spec fn transport_failure(e: ErrorView) -> bool {
    e is Transport || e is Decode
}

/// Executes HTTP requests on behalf of the client.
///
/// Implementations live outside this library (the production HTTP agent, test
/// doubles); the failures they may report are part of the trait's contract.
pub trait Transport {
    /// Executes `request`, authenticating with `authorization` (a full header
    /// value such as `Basic …`).
    ///
    /// # Errors
    ///
    /// Returns [`Error::Transport`] if no response could be obtained, or
    /// [`Error::Decode`] if the body could not be read as text.
    fn execute(&self, request: &HttpRequest, authorization: &str) -> (r: Result<HttpResponse>)
        ensures
            r matches Err(e) ==> transport_failure(e@),
    ;
}

/// HTTP methods the production transport can send.
#[derive(Debug, Clone, Copy, PartialEq, Eq)]
pub enum Method {
    /// `GET`
    Get,
    /// `POST`
    Post,
    /// `DELETE`
    Delete,
}

/// The wire name of a method.
pub open spec fn method_name(m: Method) -> Seq<char> {
    match m {
        Method::Get => "GET"@,
        Method::Post => "POST"@,
        Method::Delete => "DELETE"@,
    }
}

impl Method {
    /// The wire name of this method.
    pub fn as_str(self) -> (s: &'static str)
        ensures
            s@ == method_name(self),
    {
        match self {
            Method::Get => "GET",
            Method::Post => "POST",
            Method::Delete => "DELETE",
        }
    }

    /// Recognises a method by its wire name; any other name is refused with
    /// `Error::Transport("unsupported method: <name>")`.
    pub fn parse(name: &str) -> (r: Result<Method>)
        ensures
            match r {
                Ok(m) => method_name(m) == name@,
                Err(e) => e@ == ErrorView::Transport("unsupported method: "@ + name@) && name@
                    != "GET"@ && name@ != "POST"@ && name@ != "DELETE"@,
            },
    {
        let g = "GET".to_owned();
        let p = "POST".to_owned();
        let d = "DELETE".to_owned();
        let n = name.to_owned();
        if n == g {
            Ok(Method::Get)
        } else if n == p {
            Ok(Method::Post)
        } else if n == d {
            Ok(Method::Delete)
        } else {
            let mut m = String::new();
            push_str(&mut m, "unsupported method: ");
            push_str(&mut m, name);
            assert(m@ =~= "unsupported method: "@ + name@);
            Err(Error::Transport(m))
        }
    }
}

/// Each method is sent under its own HTTP name: `GET`, `POST` and `DELETE`.
pub proof fn law_method_wire_names()
    ensures
        method_name(Method::Get) == "GET"@,
        method_name(Method::Post) == "POST"@,
        method_name(Method::Delete) == "DELETE"@,
{
}

/// Wire names and methods correspond one to one: the name of every method is
/// one that [`Method::parse`] accepts, and it names no other method.
pub proof fn law_method_names_round_trip(m: Method, other: Method)
    ensures
        method_name(m) == "GET"@ || method_name(m) == "POST"@ || method_name(m) == "DELETE"@,
        method_name(m) == method_name(other) ==> m == other,
{
    reveal_strlit("GET");
    reveal_strlit("POST");
    reveal_strlit("DELETE");
    assert("GET"@.len() == 3 && "POST"@.len() == 4 && "DELETE"@.len() == 6);
}

} // verus!
