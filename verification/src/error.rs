//! Error types.

use vstd::prelude::*;

use crate::text::{push_decimal, push_str};

verus! {

/// Errors produced by the library.
#[derive(Debug)]
#[non_exhaustive]
pub enum Error {
    /// Required credentials were not present in any source.
    MissingCredentials,
    /// Credentials were provided but are empty.
    InvalidCredentials,
    /// The HTTP transport failed before a response was received.
    Transport(String),
    /// The Robot API returned a non-success status.
    Api {
        /// HTTP status code returned by the API.
        status: u16,
        /// Human-readable message extracted from the error body.
        message: String,
    },
    /// The Robot API rate limit was exceeded (HTTP 429).
    ///
    /// The client does not retry rate limits automatically; callers should back
    /// off and try again later.
    RateLimited {
        /// Human-readable message extracted from the error body.
        message: String,
    },
    /// A response body could not be decoded.
    Decode(String),
    /// A destructive operation was refused because it was not confirmed.
    ConfirmationRequired {
        /// Human-readable description of the refused operation.
        action: String,
    },
    /// The configuration file could not be read, is insecure, or is malformed.
    Config(String),
}

/// Convenience result alias used throughout the crate.
pub type Result<T> = std::result::Result<T, Error>;

/// The mathematical model of an [`Error`].
pub enum ErrorView {
    MissingCredentials,
    InvalidCredentials,
    Transport(Seq<char>),
    Api { status: u16, message: Seq<char> },
    RateLimited { message: Seq<char> },
    Decode(Seq<char>),
    ConfirmationRequired { action: Seq<char> },
    Config(Seq<char>),
}

impl View for Error {
    type V = ErrorView;

    open spec fn view(&self) -> ErrorView {
        match self {
            Error::MissingCredentials => ErrorView::MissingCredentials,
            Error::InvalidCredentials => ErrorView::InvalidCredentials,
            Error::Transport(m) => ErrorView::Transport(m@),
            Error::Api { status, message } => ErrorView::Api { status: *status, message: message@ },
            Error::RateLimited { message } => ErrorView::RateLimited { message: message@ },
            Error::Decode(m) => ErrorView::Decode(m@),
            Error::ConfirmationRequired { action } => ErrorView::ConfirmationRequired {
                action: action@,
            },
            Error::Config(m) => ErrorView::Config(m@),
        }
    }
}

/// The human-readable message of an error.
pub open spec fn error_message(e: ErrorView) -> Seq<char> {
    match e {
        ErrorView::MissingCredentials =>
            "missing credentials: set HETZNER_ROBOT_USER and HETZNER_ROBOT_PASSWORD"@,
        ErrorView::InvalidCredentials =>
            "invalid credentials: username and password must not be empty"@,
        ErrorView::Transport(m) => "transport error: "@ + m,
        ErrorView::Api { status, message } => "robot API error (HTTP "@ + crate::text::decimal(status as nat)
            + "): "@ + message,
        ErrorView::RateLimited { message } => "robot API rate limit exceeded: "@ + message,
        ErrorView::Decode(m) => "failed to decode response: "@ + m,
        ErrorView::ConfirmationRequired { action } => "refusing to "@ + action
            + ": confirmation required (pass --yes to skip the prompt)"@,
        ErrorView::Config(m) => m,
    }
}

impl Error {
    /// The human-readable message of this error.
    pub fn message(&self) -> (m: String)
        ensures
            m@ == error_message(self@),
    {
        let mut m = String::new();
        match self {
            Error::MissingCredentials => {
                push_str(&mut m, "missing credentials: set HETZNER_ROBOT_USER and HETZNER_ROBOT_PASSWORD");
            },
            Error::InvalidCredentials => {
                push_str(&mut m, "invalid credentials: username and password must not be empty");
            },
            Error::Transport(detail) => {
                push_str(&mut m, "transport error: ");
                push_str(&mut m, detail.as_str());
            },
            Error::Api { status, message } => {
                push_str(&mut m, "robot API error (HTTP ");
                push_decimal(&mut m, *status as u64);
                push_str(&mut m, "): ");
                push_str(&mut m, message.as_str());
            },
            Error::RateLimited { message } => {
                push_str(&mut m, "robot API rate limit exceeded: ");
                push_str(&mut m, message.as_str());
            },
            Error::Decode(detail) => {
                push_str(&mut m, "failed to decode response: ");
                push_str(&mut m, detail.as_str());
            },
            Error::ConfirmationRequired { action } => {
                push_str(&mut m, "refusing to ");
                push_str(&mut m, action.as_str());
                push_str(&mut m, ": confirmation required (pass --yes to skip the prompt)");
            },
            Error::Config(detail) => {
                push_str(&mut m, detail.as_str());
            },
        }
        assert(m@ =~= error_message(self@));
        m
    }
}

} // verus!
