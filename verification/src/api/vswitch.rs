//! vSwitch endpoints.
//!
//! Unlike most Robot endpoints, vSwitch responses are **not** wrapped in an
//! outer object: `/vswitch` returns a bare array and `/vswitch/{id}` a bare
//! object.

use vstd::prelude::*;

use crate::api::{decimal_strings, form_call, numbered, perform, plain_call, push_repeated, Call, CallView};
use crate::client::RobotClient;
use crate::error::Result;

use crate::text::{chars_of, decimal_string};
use crate::transport::{Method, Transport};

verus! {

/// Connection status of a server on a vSwitch.
#[derive(Debug, Clone, Copy, PartialEq, Eq)]
pub enum ConnectionStatus {
    /// Connected and ready.
    Ready,
    /// Connecting or disconnecting.
    InProcess,
    /// Connect or disconnect failed.
    Failed,
    /// A status this client does not know about.
    Unknown,
}

/// The status the API reports as `name`: `ready`, `in process` (also spelled
/// `processing`), `failed`; any other name is unknown.
pub open spec fn status_of(name: Seq<char>) -> ConnectionStatus {
    if name == "ready"@ {
        ConnectionStatus::Ready
    } else if name == "in process"@ || name == "processing"@ {
        ConnectionStatus::InProcess
    } else if name == "failed"@ {
        ConnectionStatus::Failed
    } else {
        ConnectionStatus::Unknown
    }
}

/// The name a status is written with.
pub open spec fn status_name(s: ConnectionStatus) -> Seq<char> {
    match s {
        ConnectionStatus::Ready => "ready"@,
        ConnectionStatus::InProcess => "in process"@,
        ConnectionStatus::Failed => "failed"@,
        ConnectionStatus::Unknown => "Unknown"@,
    }
}

impl ConnectionStatus {
    /// Reads the status the API reports as `name`.
    pub fn from_wire(name: &str) -> (s: ConnectionStatus)
        ensures
            s == status_of(name@),
    {
        let n = name.to_owned();
        if n == "ready".to_owned() {
            ConnectionStatus::Ready
        } else if n == "in process".to_owned() || n == "processing".to_owned() {
            ConnectionStatus::InProcess
        } else if n == "failed".to_owned() {
            ConnectionStatus::Failed
        } else {
            ConnectionStatus::Unknown
        }
    }

    /// The name this status is written with.
    pub fn as_str(self) -> (s: &'static str)
        ensures
            s@ == status_name(self),
    {
        match self {
            ConnectionStatus::Ready => "ready",
            ConnectionStatus::InProcess => "in process",
            ConnectionStatus::Failed => "failed",
            ConnectionStatus::Unknown => "Unknown",
        }
    }
}

/// A server connected to a vSwitch.
#[derive(Debug, Clone, PartialEq, Eq)]
pub struct VSwitchServer {
    /// Server number.
    pub server_number: u32,
    /// Connection status.
    pub status: ConnectionStatus,
    /// Server IP, if reported.
    pub server_ip: Option<String>,
    /// Server IPv6 network, if reported.
    pub server_ipv6_net: Option<String>,
}

/// A subnet attached to a vSwitch.
#[derive(Debug, Clone, PartialEq, Eq)]
pub struct Subnet {
    /// Network address.
    pub ip: String,
    /// Netmask length.
    pub mask: u8,
}

/// A Cloud Network connected to a vSwitch.
#[derive(Debug, Clone, PartialEq, Eq)]
pub struct CloudNetwork {
    /// Cloud Network ID.
    pub id: u32,
    /// Network address.
    pub ip: String,
    /// Netmask length.
    pub mask: u8,
}

/// A vSwitch. The `server`, `subnet` and `cloud_network` fields are only
/// populated by a single fetch; a listing returns the summary fields only.
#[derive(Debug, Clone, PartialEq, Eq)]
pub struct VSwitch {
    /// Unique vSwitch ID.
    pub id: u32,
    /// vSwitch name.
    pub name: String,
    /// VLAN ID (4000..=4091).
    pub vlan: u16,
    /// Whether the vSwitch has been cancelled.
    pub cancelled: bool,
    /// Connected servers.
    pub server: Vec<VSwitchServer>,
    /// Attached subnets.
    pub subnet: Vec<Subnet>,
    /// Connected Cloud Networks.
    pub cloud_network: Vec<CloudNetwork>,
}

/// The path of vSwitch `id`.
pub open spec fn vswitch_path(id: u32) -> Seq<char> {
    crate::api::numbered_path("/vswitch/"@, id as nat, ""@)
}

/// The path of the servers of vSwitch `id`.
pub open spec fn members_path(id: u32) -> Seq<char> {
    crate::api::numbered_path("/vswitch/"@, id as nat, "/server"@)
}

/// The request that lists all vSwitches: `GET /vswitch`, answered by a bare array.
pub fn list_call() -> (c: Call)
    ensures
        c@ == (CallView { method: Method::Get, path: "/vswitch"@, body: None }),
{
    plain_call(Method::Get, "/vswitch".to_owned())
}

/// The request that fetches vSwitch `id` with its servers and subnets:
/// `GET /vswitch/{id}`, answered by a bare object.
pub fn get_call(id: u32) -> (c: Call)
    ensures
        c@ == (CallView { method: Method::Get, path: vswitch_path(id), body: None }),
{
    plain_call(Method::Get, numbered("/vswitch/", id as u64, ""))
}

/// The request that creates a vSwitch: `POST /vswitch` with `name` and `vlan`.
pub fn create_call(name: &str, vlan: u16) -> (c: Call)
    ensures
        c@ == (CallView {
            method: Method::Post,
            path: "/vswitch"@,
            body: Some(crate::form::encode_fields(seq![("name"@, name@), ("vlan"@, crate::text::decimal(vlan as nat))])),
        }),
{
    let vlan_text = decimal_string(vlan as u64);
    let form = [("name", name), ("vlan", vlan_text.as_str())];
    let c = form_call(Method::Post, "/vswitch".to_owned(), &form);
    assert(crate::form::form_view(form@) =~= seq![("name"@, name@), ("vlan"@, crate::text::decimal(vlan as nat))]);
    c
}

/// The `server[]` fields naming `servers`.
pub open spec fn member_fields(servers: Seq<u32>) -> Seq<(Seq<char>, Seq<char>)> {
    crate::api::repeated("server[]"@, crate::api::decimals(servers))
}

fn members_call(method: Method, id: u32, servers: &[u32]) -> (c: Call)
    ensures
        c@ == (CallView {
            method,
            path: members_path(id),
            body: Some(crate::form::encode_fields(member_fields(servers@))),
        }),
{
    let values = decimal_strings(servers);
    let mut form: Vec<(&str, &str)> = Vec::new();
    assert(crate::form::form_view(form@) =~= Seq::empty());
    push_repeated(&mut form, "server[]", values.as_slice());
    assert(crate::form::form_view(form@) =~= member_fields(servers@));
    form_call(method, numbered("/vswitch/", id as u64, "/server"), form.as_slice())
}

/// The request that connects servers to vSwitch `id`:
/// `POST /vswitch/{id}/server` with one `server[]` field per server number.
pub fn connect_call(id: u32, servers: &[u32]) -> (c: Call)
    ensures
        c@ == (CallView {
            method: Method::Post,
            path: members_path(id),
            body: Some(crate::form::encode_fields(member_fields(servers@))),
        }),
{
    members_call(Method::Post, id, servers)
}

/// The request that disconnects servers from vSwitch `id`:
/// `DELETE /vswitch/{id}/server` with one `server[]` field per server number.
pub fn disconnect_call(id: u32, servers: &[u32]) -> (c: Call)
    ensures
        c@ == (CallView {
            method: Method::Delete,
            path: members_path(id),
            body: Some(crate::form::encode_fields(member_fields(servers@))),
        }),
{
    members_call(Method::Delete, id, servers)
}

/// The request that cancels vSwitch `id` immediately: `DELETE /vswitch/{id}`
/// with the form `cancellation_date=now`.
pub fn cancel_call(id: u32) -> (c: Call)
    ensures
        c@ == (CallView {
            method: Method::Delete,
            path: vswitch_path(id),
            body: Some(crate::form::encode_fields(seq![("cancellation_date"@, "now"@)])),
        }),
{
    let form = [("cancellation_date", "now")];
    assert(crate::form::form_view(form@) =~= seq![("cancellation_date"@, "now"@)]);
    form_call(Method::Delete, numbered("/vswitch/", id as u64, ""), &form)
}

/// The connect and disconnect requests of vSwitch `id` go to
/// `/vswitch/{id}/server` with a body that decodes to one `server[]` field per
/// server number, in decimal and in the order given: no server is dropped,
/// repeated or reordered.
pub proof fn law_member_requests_name_every_server(id: u32, servers: Seq<u32>, c: CallView)
    requires
        c.path == members_path(id),
        c.body == Some(crate::form::encode_fields(member_fields(servers))),
    ensures
        c.path == "/vswitch/"@ + crate::text::decimal(id as nat) + "/server"@,
        servers.len() > 0 ==> ({
            let d = crate::form::decode_form(c.body->0);
            &&& d.len() == servers.len()
            &&& forall|i: int|
                0 <= i < servers.len() ==> #[trigger] d[i] == (
                    vstd::utf8::encode_utf8("server[]"@),
                    vstd::utf8::encode_utf8(crate::text::decimal(servers[i] as nat)),
                )
        }),
{
    let fields = member_fields(servers);
    assert(c.path =~= "/vswitch/"@ + crate::text::decimal(id as nat) + "/server"@);
    if servers.len() > 0 {
        crate::form::law_form_roundtrip(fields);
        let d = crate::form::decode_form(c.body->0);
        assert forall|i: int| 0 <= i < servers.len() implies #[trigger] d[i] == (
            vstd::utf8::encode_utf8("server[]"@),
            vstd::utf8::encode_utf8(crate::text::decimal(servers[i] as nat)),
        ) by {
            assert(fields[i] == ("server[]"@, crate::text::decimal(servers[i] as nat)));
        }
    }
}

/// Connects servers to a vSwitch: sends [`connect_call`] once.
///
/// # Errors
///
/// Returns [`crate::Error::Api`] for a non-success status,
/// [`crate::Error::RateLimited`] for HTTP 429 and the transport's error when
/// no response was obtained.
pub fn connect<T: Transport>(client: &RobotClient<T>, id: u32, servers: &[u32]) -> (r: Result<()>)
    requires
        client.can_send(),
    ensures
        r matches Err(e) ==> crate::client::request_failure(e@),
        crate::client::sent_discarding(*client, Method::Post, members_path(id), Some(crate::form::encode_fields(member_fields(servers@))), r),
{
    perform(client, connect_call(id, servers))
}

/// Disconnects servers from a vSwitch: sends [`disconnect_call`] once.
///
/// # Errors
///
/// As [`connect`].
pub fn disconnect<T: Transport>(client: &RobotClient<T>, id: u32, servers: &[u32]) -> (r: Result<()>)
    requires
        client.can_send(),
    ensures
        r matches Err(e) ==> crate::client::request_failure(e@),
        crate::client::sent_discarding(*client, Method::Delete, members_path(id), Some(crate::form::encode_fields(member_fields(servers@))), r),
{
    perform(client, disconnect_call(id, servers))
}

/// Cancels a vSwitch immediately: sends [`cancel_call`] once.
///
/// # Errors
///
/// As [`connect`].
pub fn cancel<T: Transport>(client: &RobotClient<T>, id: u32) -> (r: Result<()>)
    requires
        client.can_send(),
    ensures
        r matches Err(e) ==> crate::client::request_failure(e@),
        crate::client::sent_discarding(*client, Method::Delete, vswitch_path(id), Some(crate::form::encode_fields(seq![("cancellation_date"@, "now"@)])), r),
{
    perform(client, cancel_call(id))
}

} // verus!
