//! `metalctl` — the verified core of a client and command-line tool for the
//! Hetzner Robot (bare-metal) API.
//!
//! - [`RobotClient`] builds authenticated requests, sends them over a
//!   pluggable [`Transport`] and checks the answers, so tests run entirely in
//!   memory.
//! - [`api`] describes the typed endpoints.
//! - [`cli`] and [`mcp`] hold the decisions of the command-line tool and of the
//!   Model Context Protocol server.

pub mod api;
pub mod cli;
pub mod client;
pub mod credentials;
pub mod error;
pub mod form;
pub mod json;
pub mod mcp;
pub mod output;
pub mod text;
pub mod transport;

pub use client::{RetryPolicy, RetryState, RobotClient, Step, DEFAULT_BASE_URL};
pub use credentials::{
    check_config_permissions, config_path_from, parse_config, ConfigCredentials,
    CredentialSources, Credentials, CONFIG_ENV, PASSWORD_ENV, USER_ENV,
};
pub use error::{Error, Result};
pub use transport::{HttpRequest, HttpResponse, Method, Transport, DEFAULT_TIMEOUT_SECS};
