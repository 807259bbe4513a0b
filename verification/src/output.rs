//! What the command-line tool prints for each answer in its human-readable
//! (non-JSON) mode. Every function returns the full text, one `\n`-terminated
//! line per printed line.

use vstd::prelude::*;

use crate::api::boot::Rescue;
use crate::api::failover::Failover;
use crate::api::reset::{ResetOptions, ResetResult};
use crate::api::rdns::Rdns;
use crate::api::server::Server;
use crate::api::vswitch::{ConnectionStatus, VSwitch, VSwitchServer};
use crate::cli::{BootCommand, Command, RescueCommand, VSwitchCommand};
use crate::text::{chars_of, decimal, push_char, push_decimal, push_str};

verus! {

// ---------------------------------------------------------------------------
// Building blocks
// ---------------------------------------------------------------------------

/// `s` as one printed line.
pub open spec fn line(s: Seq<char>) -> Seq<char> {
    s.push('\n')
}

/// `n` spaces.
pub open spec fn spaces(n: nat) -> Seq<char> {
    Seq::new(n, |i: int| ' ')
}

/// `s` left-aligned in a field of `width` characters (`{:<width}`): padded
/// with spaces when shorter, unchanged otherwise.
pub open spec fn pad_right(s: Seq<char>, width: nat) -> Seq<char> {
    if s.len() >= width {
        s
    } else {
        s + spaces((width - s.len()) as nat)
    }
}

/// `true` or `false`.
pub open spec fn bool_text(b: bool) -> Seq<char> {
    if b {
        "true"@
    } else {
        "false"@
    }
}

/// A labelled line for an optional value; nothing when the value is absent.
pub open spec fn optional_line(label: Seq<char>, value: Option<Seq<char>>) -> Seq<char> {
    match value {
        Some(v) => line(label + v),
        None => Seq::empty(),
    }
}

/// The rows of `items`, in order.
pub open spec fn rows<A>(items: Seq<A>, row: spec_fn(A) -> Seq<char>) -> Seq<char>
    decreases items.len(),
{
    if items.len() == 0 {
        Seq::empty()
    } else {
        rows(items.drop_last(), row) + row(items.last())
    }
}

/// `parts` separated by `sep`.
pub open spec fn joined(parts: Seq<Seq<char>>, sep: Seq<char>) -> Seq<char>
    decreases parts.len(),
{
    if parts.len() == 0 {
        Seq::empty()
    } else if parts.len() == 1 {
        parts[0]
    } else {
        joined(parts.drop_last(), sep) + sep + parts.last()
    }
}

proof fn lemma_rows_step<A>(items: Seq<A>, row: spec_fn(A) -> Seq<char>, i: int)
    requires
        0 <= i < items.len(),
    ensures
        rows(items.take(i + 1), row) == rows(items.take(i), row) + row(items[i]),
{
    assert(items.take(i + 1).drop_last() =~= items.take(i));
}

proof fn lemma_rows_push<A>(items: Seq<A>, row: spec_fn(A) -> Seq<char>, x: A)
    ensures
        rows(items.push(x), row) == rows(items, row) + row(x),
{
    assert(items.push(x).drop_last() =~= items);
}

fn push_line(out: &mut String, text: &str)
    ensures
        final(out)@ == old(out)@ + line(text@),
{
    push_str(out, text);
    push_char(out, '\n');
    assert(out@ =~= old(out)@ + line(text@));
}

/// Appends `text` left-aligned in a field of `width` characters.
fn push_padded(out: &mut String, text: &str, width: usize)
    ensures
        final(out)@ == old(out)@ + pad_right(text@, width as nat),
{
    push_str(out, text);
    let n = chars_of(text).len();
    if n < width {
        let mut k: usize = n;
        while k < width
            invariant
                n <= k <= width,
                n == text@.len(),
                out@ == old(out)@ + text@ + spaces((k - n) as nat),
            decreases width - k,
        {
            push_char(out, ' ');
            assert(spaces((k - n) as nat).push(' ') =~= spaces((k + 1 - n) as nat));
            k = k + 1;
        }
        assert(out@ =~= old(out)@ + pad_right(text@, width as nat));
    } else {
        assert(out@ =~= old(out)@ + pad_right(text@, width as nat));
    }
}

fn push_optional_line(out: &mut String, label: &str, value: &Option<String>)
    ensures
        final(out)@ == old(out)@ + optional_line(label@, crate::transport::opt_view(*value)),
{
    match value {
        Some(v) => {
            push_str(out, label);
            push_line(out, v.as_str());
            assert(out@ =~= old(out)@ + optional_line(label@, crate::transport::opt_view(*value)));
        },
        None => {
            assert(out@ =~= old(out)@ + optional_line(label@, crate::transport::opt_view(*value)));
        },
    }
}

fn push_bool(out: &mut String, b: bool)
    ensures
        final(out)@ == old(out)@ + bool_text(b),
{
    if b {
        push_str(out, "true");
    } else {
        push_str(out, "false");
    }
}

// ---------------------------------------------------------------------------
// Servers
// ---------------------------------------------------------------------------

/// One row of the server table: number (8 wide), IP (16 wide), name.
pub open spec fn server_row(s: Server) -> Seq<char> {
    line(
        pad_right(decimal(s.server_number as nat), 8) + " "@ + pad_right(s.server_ip@, 16) + " "@
            + s.server_name@,
    )
}

/// The server table, or `no servers` when there are none.
pub open spec fn server_table_text(servers: Seq<Server>) -> Seq<char> {
    if servers.len() == 0 {
        line("no servers"@)
    } else {
        rows(servers, |s: Server| server_row(s))
    }
}

/// The table of `servers`.
pub fn server_table(servers: &[Server]) -> (t: String)
    ensures
        t@ == server_table_text(servers@),
{
    let mut out = String::new();
    if servers.len() == 0 {
        push_line(&mut out, "no servers");
        return out;
    }
    let ghost row = |s: Server| server_row(s);
    let mut i: usize = 0;
    while i < servers.len()
        invariant
            i <= servers@.len(),
            row == (|s: Server| server_row(s)),
            out@ == rows(servers@.take(i as int), row),
        decreases servers@.len() - i,
    {
        let s = &servers[i];
        let number = crate::text::decimal_string(s.server_number as u64);
        let ghost before = out@;
        push_padded(&mut out, number.as_str(), 8);
        push_str(&mut out, " ");
        push_padded(&mut out, s.server_ip.as_str(), 16);
        push_str(&mut out, " ");
        push_line(&mut out, s.server_name.as_str());
        proof {
            assert(out@ =~= before + server_row(*s));
            lemma_rows_step(servers@, row, i as int);
        }
        i = i + 1;
    }
    assert(servers@.take(i as int) =~= servers@);
    out
}

/// The details of one server; optional fields appear only when reported.
pub open spec fn server_text(s: Server) -> Seq<char> {
    line("number:  "@ + decimal(s.server_number as nat)) + line("name:    "@ + s.server_name@)
        + line("ip:      "@ + s.server_ip@) + optional_line(
        "ipv6:    "@,
        crate::transport::opt_view(s.server_ipv6_net),
    ) + optional_line("product: "@, crate::transport::opt_view(s.product)) + optional_line(
        "status:  "@,
        crate::transport::opt_view(s.status),
    ) + optional_line("dc:      "@, crate::transport::opt_view(s.dc))
}

/// The details of `server`.
pub fn server_details(server: &Server) -> (t: String)
    ensures
        t@ == server_text(*server),
{
    let mut out = String::new();
    push_str(&mut out, "number:  ");
    push_decimal(&mut out, server.server_number as u64);
    push_char(&mut out, '\n');
    push_str(&mut out, "name:    ");
    push_line(&mut out, server.server_name.as_str());
    push_str(&mut out, "ip:      ");
    push_line(&mut out, server.server_ip.as_str());
    push_optional_line(&mut out, "ipv6:    ", &server.server_ipv6_net);
    push_optional_line(&mut out, "product: ", &server.product);
    push_optional_line(&mut out, "status:  ", &server.status);
    push_optional_line(&mut out, "dc:      ", &server.dc);
    assert(out@ =~= server_text(*server));
    out
}

// ---------------------------------------------------------------------------
// Reverse DNS, resets, rescue system
// ---------------------------------------------------------------------------

/// A reverse DNS entry: the IP and its PTR record, or `(none)`.
pub open spec fn rdns_text(entry: Rdns) -> Seq<char> {
    line("ip:  "@ + entry.ip@) + line(
        "ptr: "@ + match entry.ptr {
            Some(p) => p@,
            None => "(none)"@,
        },
    )
}

/// The text for `entry`.
pub fn rdns_details(entry: &Rdns) -> (t: String)
    ensures
        t@ == rdns_text(*entry),
{
    let mut out = String::new();
    push_str(&mut out, "ip:  ");
    push_line(&mut out, entry.ip.as_str());
    push_str(&mut out, "ptr: ");
    match &entry.ptr {
        Some(p) => push_line(&mut out, p.as_str()),
        None => push_line(&mut out, "(none)"),
    }
    assert(out@ =~= rdns_text(*entry));
    out
}

/// The reset methods of a server, separated by `, `.
pub open spec fn reset_options_text(options: ResetOptions) -> Seq<char> {
    line("server:  "@ + decimal(options.server_number as nat)) + line(
        "methods: "@ + joined(crate::api::texts(options.types@), ", "@),
    )
}

/// The text for `options`.
pub fn reset_options(options: &ResetOptions) -> (t: String)
    ensures
        t@ == reset_options_text(*options),
{
    let mut out = String::new();
    push_str(&mut out, "server:  ");
    push_decimal(&mut out, options.server_number as u64);
    push_char(&mut out, '\n');
    push_str(&mut out, "methods: ");
    let ghost start = out@;
    let ghost parts = crate::api::texts(options.types@);
    let mut i: usize = 0;
    while i < options.types.len()
        invariant
            i <= options.types@.len(),
            parts == crate::api::texts(options.types@),
            out@ == start + joined(parts.take(i as int), ", "@),
        decreases options.types@.len() - i,
    {
        let ghost before = out@;
        if i > 0 {
            push_str(&mut out, ", ");
        }
        push_str(&mut out, options.types[i].as_str());
        proof {
            let next = parts.take(i + 1);
            assert(next.drop_last() =~= parts.take(i as int));
            assert(next.last() == options.types@[i as int]@);
            if i == 0 {
                assert(next.len() == 1 && next[0] == options.types@[0]@);
            }
            assert(out@ =~= start + joined(next, ", "@));
        }
        i = i + 1;
    }
    assert(parts.take(i as int) =~= parts);
    push_char(&mut out, '\n');
    assert(out@ =~= reset_options_text(*options));
    out
}

/// The outcome of a reset.
pub open spec fn reset_result_text(result: ResetResult) -> Seq<char> {
    line("server: "@ + decimal(result.server_number as nat)) + line("reset:  "@ + result.kind@)
}

/// The text for `result`.
pub fn reset_result(result: &ResetResult) -> (t: String)
    ensures
        t@ == reset_result_text(*result),
{
    let mut out = String::new();
    push_str(&mut out, "server: ");
    push_decimal(&mut out, result.server_number as u64);
    push_char(&mut out, '\n');
    push_str(&mut out, "reset:  ");
    push_line(&mut out, result.kind.as_str());
    assert(out@ =~= reset_result_text(*result));
    out
}

/// The rescue system configuration; optional fields appear only when reported.
pub open spec fn rescue_text(r: Rescue) -> Seq<char> {
    line("server:   "@ + decimal(r.server_number as nat)) + optional_line(
        "os:       "@,
        crate::transport::opt_view(r.os),
    ) + optional_line(
        "arch:     "@,
        match r.arch {
            Some(a) => Some(decimal(a as nat)),
            None => None,
        },
    ) + optional_line(
        "active:   "@,
        match r.active {
            Some(b) => Some(bool_text(b)),
            None => None,
        },
    ) + optional_line("password: "@, crate::transport::opt_view(r.password))
}

/// The text for `rescue`.
pub fn rescue_details(rescue: &Rescue) -> (t: String)
    ensures
        t@ == rescue_text(*rescue),
{
    let mut out = String::new();
    push_str(&mut out, "server:   ");
    push_decimal(&mut out, rescue.server_number as u64);
    push_char(&mut out, '\n');
    push_optional_line(&mut out, "os:       ", &rescue.os);
    let ghost before_arch = out@;
    match rescue.arch {
        Some(a) => {
            push_str(&mut out, "arch:     ");
            push_decimal(&mut out, a as u64);
            push_char(&mut out, '\n');
        },
        None => {},
    }
    assert(out@ =~= before_arch + optional_line(
        "arch:     "@,
        match rescue.arch {
            Some(a) => Some(decimal(a as nat)),
            None => None,
        },
    ));
    let ghost before_active = out@;
    match rescue.active {
        Some(b) => {
            push_str(&mut out, "active:   ");
            push_bool(&mut out, b);
            push_char(&mut out, '\n');
        },
        None => {},
    }
    assert(out@ =~= before_active + optional_line(
        "active:   "@,
        match rescue.active {
            Some(b) => Some(bool_text(b)),
            None => None,
        },
    ));
    push_optional_line(&mut out, "password: ", &rescue.password);
    assert(out@ =~= rescue_text(*rescue));
    out
}

// ---------------------------------------------------------------------------
// Failover IPs
// ---------------------------------------------------------------------------

/// A failover IP and where it is routed, or `(unrouted)`.
pub open spec fn failover_row(e: Failover) -> Seq<char> {
    line(
        e.ip@ + " -> "@ + match e.active_server_ip {
            Some(t) => t@,
            None => "(unrouted)"@,
        },
    )
}

/// The text for one failover IP.
pub fn failover_entry(entry: &Failover) -> (t: String)
    ensures
        t@ == failover_row(*entry),
{
    let mut out = String::new();
    push_str(&mut out, entry.ip.as_str());
    push_str(&mut out, " -> ");
    match &entry.active_server_ip {
        Some(target) => push_line(&mut out, target.as_str()),
        None => push_line(&mut out, "(unrouted)"),
    }
    assert(out@ =~= failover_row(*entry));
    out
}

/// The failover IPs, one per line, or `no failover IPs` when there are none.
pub open spec fn failover_table_text(entries: Seq<Failover>) -> Seq<char> {
    if entries.len() == 0 {
        line("no failover IPs"@)
    } else {
        rows(entries, |e: Failover| failover_row(e))
    }
}

/// The text for a list of failover IPs.
pub fn failover_table(entries: &[Failover]) -> (t: String)
    ensures
        t@ == failover_table_text(entries@),
{
    let mut out = String::new();
    if entries.len() == 0 {
        push_line(&mut out, "no failover IPs");
        return out;
    }
    let ghost row = |e: Failover| failover_row(e);
    let mut i: usize = 0;
    while i < entries.len()
        invariant
            i <= entries@.len(),
            row == (|e: Failover| failover_row(e)),
            out@ == rows(entries@.take(i as int), row),
        decreases entries@.len() - i,
    {
        let one = failover_entry(&entries[i]);
        push_str(&mut out, one.as_str());
        proof {
            lemma_rows_step(entries@, row, i as int);
        }
        i = i + 1;
    }
    assert(entries@.take(i as int) =~= entries@);
    out
}

// ---------------------------------------------------------------------------
// vSwitches
// ---------------------------------------------------------------------------

/// One row of the vSwitch list: ID, VLAN and name.
pub open spec fn vswitch_row(v: VSwitch) -> Seq<char> {
    line(decimal(v.id as nat) + "  vlan "@ + decimal(v.vlan as nat) + "  "@ + v.name@)
}

/// The vSwitch list, or `no vSwitches` when there are none.
pub open spec fn vswitch_table_text(switches: Seq<VSwitch>) -> Seq<char> {
    if switches.len() == 0 {
        line("no vSwitches"@)
    } else {
        rows(switches, |v: VSwitch| vswitch_row(v))
    }
}

/// The text for a list of vSwitches.
pub fn vswitch_table(switches: &[VSwitch]) -> (t: String)
    ensures
        t@ == vswitch_table_text(switches@),
{
    let mut out = String::new();
    if switches.len() == 0 {
        push_line(&mut out, "no vSwitches");
        return out;
    }
    let ghost row = |v: VSwitch| vswitch_row(v);
    let mut i: usize = 0;
    while i < switches.len()
        invariant
            i <= switches@.len(),
            row == (|v: VSwitch| vswitch_row(v)),
            out@ == rows(switches@.take(i as int), row),
        decreases switches@.len() - i,
    {
        let v = &switches[i];
        let ghost before = out@;
        push_decimal(&mut out, v.id as u64);
        push_str(&mut out, "  vlan ");
        push_decimal(&mut out, v.vlan as u64);
        push_str(&mut out, "  ");
        push_line(&mut out, v.name.as_str());
        proof {
            assert(out@ =~= before + vswitch_row(*v));
            lemma_rows_step(switches@, row, i as int);
        }
        i = i + 1;
    }
    assert(switches@.take(i as int) =~= switches@);
    out
}

/// How a connection status is shown (its variant name).
pub open spec fn status_label(s: ConnectionStatus) -> Seq<char> {
    match s {
        ConnectionStatus::Ready => "Ready"@,
        ConnectionStatus::InProcess => "InProcess"@,
        ConnectionStatus::Failed => "Failed"@,
        ConnectionStatus::Unknown => "Unknown"@,
    }
}

/// One connected server of a vSwitch and its status.
pub open spec fn member_row(m: VSwitchServer) -> Seq<char> {
    line("server:    "@ + decimal(m.server_number as nat) + " ("@ + status_label(m.status) + ")"@)
}

/// The details of one vSwitch, with a line per connected server.
pub open spec fn vswitch_text(v: VSwitch) -> Seq<char> {
    line("id:        "@ + decimal(v.id as nat)) + line("name:      "@ + v.name@) + line(
        "vlan:      "@ + decimal(v.vlan as nat),
    ) + line("cancelled: "@ + bool_text(v.cancelled)) + rows(
        v.server@,
        |m: VSwitchServer| member_row(m),
    )
}

fn push_status(out: &mut String, s: ConnectionStatus)
    ensures
        final(out)@ == old(out)@ + status_label(s),
{
    match s {
        ConnectionStatus::Ready => push_str(out, "Ready"),
        ConnectionStatus::InProcess => push_str(out, "InProcess"),
        ConnectionStatus::Failed => push_str(out, "Failed"),
        ConnectionStatus::Unknown => push_str(out, "Unknown"),
    }
}

/// The text for `vswitch`.
pub fn vswitch_details(vswitch: &VSwitch) -> (t: String)
    ensures
        t@ == vswitch_text(*vswitch),
{
    let mut out = String::new();
    push_str(&mut out, "id:        ");
    push_decimal(&mut out, vswitch.id as u64);
    push_char(&mut out, '\n');
    push_str(&mut out, "name:      ");
    push_line(&mut out, vswitch.name.as_str());
    push_str(&mut out, "vlan:      ");
    push_decimal(&mut out, vswitch.vlan as u64);
    push_char(&mut out, '\n');
    push_str(&mut out, "cancelled: ");
    push_bool(&mut out, vswitch.cancelled);
    push_char(&mut out, '\n');
    let ghost head = out@;
    let ghost row = |m: VSwitchServer| member_row(m);
    let members = &vswitch.server;
    let mut i: usize = 0;
    while i < members.len()
        invariant
            i <= members@.len(),
            members@ == vswitch.server@,
            row == (|m: VSwitchServer| member_row(m)),
            out@ == head + rows(members@.take(i as int), row),
        decreases members@.len() - i,
    {
        let m = &members[i];
        let ghost before = out@;
        push_str(&mut out, "server:    ");
        push_decimal(&mut out, m.server_number as u64);
        push_str(&mut out, " (");
        push_status(&mut out, m.status);
        push_line(&mut out, ")");
        proof {
            assert(out@ =~= before + member_row(*m));
            lemma_rows_step(members@, row, i as int);
        }
        i = i + 1;
    }
    assert(members@.take(i as int) =~= members@);
    assert(out@ =~= vswitch_text(*vswitch));
    out
}

/// The confirmation that a vSwitch was created.
pub open spec fn created_text(v: VSwitch) -> Seq<char> {
    line("created vSwitch "@ + decimal(v.id as nat) + " (vlan "@ + decimal(v.vlan as nat) + ")"@)
}

/// The text for a created `vswitch`.
pub fn vswitch_created(vswitch: &VSwitch) -> (t: String)
    ensures
        t@ == created_text(*vswitch),
{
    let mut out = String::new();
    push_str(&mut out, "created vSwitch ");
    push_decimal(&mut out, vswitch.id as u64);
    push_str(&mut out, " (vlan ");
    push_decimal(&mut out, vswitch.vlan as u64);
    push_line(&mut out, ")");
    assert(out@ =~= created_text(*vswitch));
    out
}

// ---------------------------------------------------------------------------
// Commands whose answer carries no data
// ---------------------------------------------------------------------------

/// What is printed once a command whose answer carries no data has succeeded:
/// a rescue deactivation, a vSwitch connect, disconnect or cancellation.
pub open spec fn completion_of(c: &Command) -> Option<Seq<char>> {
    match c {
        Command::Boot { command: BootCommand::Rescue { command: RescueCommand::Deactivate { number } } } =>
            Some(line("rescue system deactivated for server "@ + decimal(*number as nat))),
        Command::Vswitch { command: VSwitchCommand::Connect { id, servers } } => Some(
            line("connected "@ + decimal(servers@.len()) + " server(s) to vSwitch "@ + decimal(*id as nat)),
        ),
        Command::Vswitch { command: VSwitchCommand::Disconnect { id, servers } } => Some(
            line("disconnected "@ + decimal(servers@.len()) + " server(s) from vSwitch "@ + decimal(*id as nat)),
        ),
        Command::Vswitch { command: VSwitchCommand::Cancel { id } } => Some(
            line("cancelled vSwitch "@ + decimal(*id as nat)),
        ),
        _ => None,
    }
}

/// The text printed after `command` succeeded, when its answer carries no data.
pub fn completion(command: &Command) -> (t: Option<String>)
    ensures
        match t {
            Some(s) => completion_of(command) == Some(s@),
            None => completion_of(command) is None,
        },
{
    let mut out = String::new();
    match command {
        Command::Boot { command: BootCommand::Rescue { command: RescueCommand::Deactivate { number } } } => {
            push_str(&mut out, "rescue system deactivated for server ");
            push_decimal(&mut out, *number as u64);
        },
        Command::Vswitch { command: VSwitchCommand::Connect { id, servers } } => {
            push_str(&mut out, "connected ");
            push_decimal(&mut out, servers.len() as u64);
            push_str(&mut out, " server(s) to vSwitch ");
            push_decimal(&mut out, *id as u64);
        },
        Command::Vswitch { command: VSwitchCommand::Disconnect { id, servers } } => {
            push_str(&mut out, "disconnected ");
            push_decimal(&mut out, servers.len() as u64);
            push_str(&mut out, " server(s) from vSwitch ");
            push_decimal(&mut out, *id as u64);
        },
        Command::Vswitch { command: VSwitchCommand::Cancel { id } } => {
            push_str(&mut out, "cancelled vSwitch ");
            push_decimal(&mut out, *id as u64);
        },
        _ => {
            return None;
        },
    }
    push_char(&mut out, '\n');
    assert(completion_of(command) == Some(out@));
    Some(out)
}

// ---------------------------------------------------------------------------
// Laws
// ---------------------------------------------------------------------------

/// The vSwitch list prints one line per vSwitch, in order: an empty list
/// prints `no vSwitches`, a single vSwitch prints `{id}  vlan {vlan}  {name}`,
/// and appending a vSwitch to a non-empty list appends exactly its line.
pub proof fn law_vswitch_table_has_a_line_per_vswitch(switches: Seq<VSwitch>, v: VSwitch)
    ensures
        vswitch_table_text(Seq::empty()) == "no vSwitches"@.push('\n'),
        vswitch_table_text(seq![v]) == (decimal(v.id as nat) + "  vlan "@ + decimal(v.vlan as nat)
            + "  "@ + v.name@).push('\n'),
        switches.len() > 0 ==> vswitch_table_text(switches.push(v)) == vswitch_table_text(switches)
            + (decimal(v.id as nat) + "  vlan "@ + decimal(v.vlan as nat) + "  "@ + v.name@).push(
            '\n',
        ),
{
    lemma_rows_push(switches, |x: VSwitch| vswitch_row(x), v);
    lemma_rows_push(Seq::<VSwitch>::empty(), |x: VSwitch| vswitch_row(x), v);
    assert(Seq::<VSwitch>::empty().push(v) =~= seq![v]);
}

/// The server table prints one row per server, in order: an empty list
/// prints `no servers`, and appending a server to a non-empty list appends
/// exactly its row (number padded to 8, IP padded to 16, name).
pub proof fn law_server_table_has_a_row_per_server(servers: Seq<Server>, s: Server)
    ensures
        server_table_text(Seq::empty()) == "no servers"@.push('\n'),
        server_table_text(seq![s]) == (pad_right(decimal(s.server_number as nat), 8) + " "@
            + pad_right(s.server_ip@, 16) + " "@ + s.server_name@).push('\n'),
        servers.len() > 0 ==> server_table_text(servers.push(s)) == server_table_text(servers) + (
        pad_right(decimal(s.server_number as nat), 8) + " "@ + pad_right(s.server_ip@, 16) + " "@
            + s.server_name@).push('\n'),
{
    lemma_rows_push(servers, |x: Server| server_row(x), s);
    lemma_rows_push(Seq::<Server>::empty(), |x: Server| server_row(x), s);
    assert(Seq::<Server>::empty().push(s) =~= seq![s]);
}

/// A padded field is the text followed by spaces up to the width, never
/// shorter than the text and never longer than needed.
pub proof fn law_padding_keeps_the_text(t: Seq<char>, width: nat)
    ensures
        pad_right(t, width).len() == if t.len() >= width { t.len() } else { width },
        pad_right(t, width).take(t.len() as int) == t,
        forall|i: int| t.len() <= i < pad_right(t, width).len() ==> #[trigger] pad_right(t, width)[i] == ' ',
{
    assert(pad_right(t, width).take(t.len() as int) =~= t);
}

/// The failover list prints one line per failover IP, in order: an empty list
/// prints `no failover IPs`, and appending an entry to a non-empty list
/// appends exactly its line, `{ip} -> {target}` or `{ip} -> (unrouted)`.
pub proof fn law_failover_table_has_a_line_per_ip(entries: Seq<Failover>, e: Failover)
    ensures
        failover_table_text(Seq::empty()) == "no failover IPs"@.push('\n'),
        entries.len() > 0 ==> failover_table_text(entries.push(e)) == failover_table_text(entries) + (
        e.ip@ + " -> "@ + match e.active_server_ip {
            Some(t) => t@,
            None => "(unrouted)"@,
        }).push('\n'),
{
    lemma_rows_push(entries, |x: Failover| failover_row(x), e);
}

/// The details of a vSwitch end with one line per connected server, in
/// order: connecting one more server appends exactly its line.
pub proof fn law_vswitch_details_list_every_server(v: VSwitch, more: VSwitch, m: VSwitchServer)
    requires
        more.id == v.id && more.name == v.name && more.vlan == v.vlan && more.cancelled == v.cancelled,
        more.server@ == v.server@.push(m),
    ensures
        vswitch_text(more) == vswitch_text(v) + ("server:    "@ + decimal(m.server_number as nat)
            + " ("@ + status_label(m.status) + ")"@).push('\n'),
{
    lemma_rows_push(v.server@, |x: VSwitchServer| member_row(x), m);
}

} // verus!
