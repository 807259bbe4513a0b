//! Decisions of the command-line tool: which commands are destructive, how a
//! destructive command is confirmed, and what it is described as.

use vstd::prelude::*;

use crate::api::reset::ResetType;
use crate::credentials::Credentials;
use crate::error::{Error, ErrorView, Result};
use crate::text::{chars_of, equal_ignoring_ascii_case, push_char, push_decimal, push_str, string_from, trimmed};

verus! {

/// A reset method as named on the command line.
#[derive(Debug, Clone, Copy, PartialEq, Eq)]
pub enum ResetKind {
    /// Software reset.
    Sw,
    /// Hardware reset.
    Hw,
    /// Power cycle.
    Power,
}

/// The label of a reset method in confirmations and dry-run output.
pub open spec fn reset_kind_label(k: ResetKind) -> Seq<char> {
    match k {
        ResetKind::Sw => "sw"@,
        ResetKind::Hw => "hw"@,
        ResetKind::Power => "power"@,
    }
}

/// The API reset method a command-line reset method stands for.
pub open spec fn reset_type_of(k: ResetKind) -> ResetType {
    match k {
        ResetKind::Sw => ResetType::Software,
        ResetKind::Hw => ResetType::Hardware,
        ResetKind::Power => ResetType::Power,
    }
}

impl ResetKind {
    /// Lowercase label used in confirmations and dry-run output.
    pub fn label(self) -> (s: &'static str)
        ensures
            s@ == reset_kind_label(self),
    {
        match self {
            ResetKind::Sw => "sw",
            ResetKind::Hw => "hw",
            ResetKind::Power => "power",
        }
    }

    /// The API reset method.
    pub fn reset_type(self) -> (t: ResetType)
        ensures
            t == reset_type_of(self),
    {
        match self {
            ResetKind::Sw => ResetType::Software,
            ResetKind::Hw => ResetType::Hardware,
            ResetKind::Power => ResetType::Power,
        }
    }
}

/// `server` subcommands.
pub enum ServerCommand {
    /// List all servers on the account.
    List,
    /// Show a single server by its server number.
    Get { number: u32 },
}

/// `rdns` subcommands.
pub enum RdnsCommand {
    /// Show the reverse DNS entry for an IP address.
    Get { ip: String },
    /// Set the PTR record for an IP address.
    SetPtr { ip: String, ptr: String },
}

/// `reset` subcommands.
pub enum ResetCommand {
    /// List the reset methods available for a server.
    Methods { number: u32 },
    /// Execute a reset for a server.
    Run { number: u32, kind: ResetKind },
}

/// `boot` subcommands.
pub enum BootCommand {
    /// Manage the rescue system.
    Rescue { command: RescueCommand },
}

/// `boot rescue` subcommands.
pub enum RescueCommand {
    /// Show the current rescue system configuration.
    Get { number: u32 },
    /// Activate the rescue system.
    Activate { number: u32, os: String, arch: String, authorized_keys: Vec<String> },
    /// Deactivate the rescue system.
    Deactivate { number: u32 },
}

/// `vswitch` subcommands.
pub enum VSwitchCommand {
    /// List all vSwitches.
    List,
    /// Show a single vSwitch, including connected servers.
    Get { id: u32 },
    /// Create a vSwitch.
    Create { name: String, vlan: u16 },
    /// Connect servers to a vSwitch.
    Connect { id: u32, servers: Vec<u32> },
    /// Disconnect servers from a vSwitch.
    Disconnect { id: u32, servers: Vec<u32> },
    /// Cancel a vSwitch immediately.
    Cancel { id: u32 },
}

/// `failover` subcommands.
pub enum FailoverCommand {
    /// List all failover IPs on the account.
    List,
    /// Show a single failover IP.
    Get { ip: String },
    /// Route a failover IP to a server IP.
    Route { ip: String, active_server_ip: String },
}

/// A command of the tool.
pub enum Command {
    /// Work with dedicated servers.
    Server { command: ServerCommand },
    /// Work with reverse DNS entries.
    Rdns { command: RdnsCommand },
    /// Reset a dedicated server.
    Reset { command: ResetCommand },
    /// Manage boot configuration (rescue system).
    Boot { command: BootCommand },
    /// Manage failover IPs.
    Failover { command: FailoverCommand },
    /// Query traffic statistics.
    Traffic { kind: String, from: String, to: String, ips: Vec<String> },
    /// Manage vSwitches.
    Vswitch { command: VSwitchCommand },
}

/// Whether a command mutates state: `rdns set`, `reset run`, `boot rescue
/// activate`/`deactivate`, `failover route` and every mutating `vswitch`
/// command.
pub open spec fn destructive(c: &Command) -> bool {
    match c {
        Command::Rdns { command } => command is SetPtr,
        Command::Reset { command } => command is Run,
        Command::Boot { command } => match command {
            BootCommand::Rescue { command } => command is Activate || command is Deactivate,
        },
        Command::Failover { command } => command is Route,
        Command::Vswitch { command } => command is Create || command is Connect
            || command is Disconnect || command is Cancel,
        Command::Server { .. } => false,
        Command::Traffic { .. } => false,
    }
}

/// Whether `command` performs a destructive (mutating) operation.
pub fn is_destructive(command: &Command) -> (b: bool)
    ensures
        b == destructive(command),
{
    match command {
        Command::Rdns { command } => match command {
            RdnsCommand::SetPtr { .. } => true,
            _ => false,
        },
        Command::Reset { command } => match command {
            ResetCommand::Run { .. } => true,
            _ => false,
        },
        Command::Boot { command } => match command {
            BootCommand::Rescue { command } => match command {
                RescueCommand::Activate { .. } | RescueCommand::Deactivate { .. } => true,
                _ => false,
            },
        },
        Command::Failover { command } => match command {
            FailoverCommand::Route { .. } => true,
            _ => false,
        },
        Command::Vswitch { command } => match command {
            VSwitchCommand::Create { .. } | VSwitchCommand::Connect { .. }
            | VSwitchCommand::Disconnect { .. } | VSwitchCommand::Cancel { .. } => true,
            _ => false,
        },
        Command::Server { .. } | Command::Traffic { .. } => false,
    }
}

/// How a destructive command is described when it is confirmed, refused or
/// printed by `--dry-run`; read-only commands have no description.
pub open spec fn action_of(c: &Command) -> Option<Seq<char>> {
    match c {
        Command::Rdns { command: RdnsCommand::SetPtr { ip, ptr } } => Some(
            "set the PTR record for "@ + ip@ + " to \""@ + ptr@ + "\""@,
        ),
        Command::Reset { command: ResetCommand::Run { number, kind } } => Some(
            "reset server "@ + crate::text::decimal(*number as nat) + " ("@ + reset_kind_label(*kind) + ")"@,
        ),
        Command::Boot { command: BootCommand::Rescue { command: RescueCommand::Activate { number, .. } } } =>
            Some("activate the rescue system for server "@ + crate::text::decimal(*number as nat)),
        Command::Boot { command: BootCommand::Rescue { command: RescueCommand::Deactivate { number } } } =>
            Some("deactivate the rescue system for server "@ + crate::text::decimal(*number as nat)),
        Command::Failover { command: FailoverCommand::Route { ip, active_server_ip } } => Some(
            "route failover IP "@ + ip@ + " to "@ + active_server_ip@,
        ),
        Command::Vswitch { command: VSwitchCommand::Create { name, vlan } } => Some(
            "create vSwitch \""@ + name@ + "\" (vlan "@ + crate::text::decimal(*vlan as nat) + ")"@,
        ),
        Command::Vswitch { command: VSwitchCommand::Connect { id, servers } } => Some(
            "connect "@ + crate::text::decimal(servers@.len()) + " server(s) to vSwitch "@ + crate::text::decimal(*id as nat),
        ),
        Command::Vswitch { command: VSwitchCommand::Disconnect { id, servers } } => Some(
            "disconnect "@ + crate::text::decimal(servers@.len()) + " server(s) from vSwitch "@ + crate::text::decimal(
                *id as nat,
            ),
        ),
        Command::Vswitch { command: VSwitchCommand::Cancel { id } } => Some(
            "cancel vSwitch "@ + crate::text::decimal(*id as nat),
        ),
        _ => None,
    }
}

/// Describes a destructive command; `None` for a read-only one.
pub fn action(command: &Command) -> (a: Option<String>)
    ensures
        match a {
            Some(s) => action_of(command) == Some(s@),
            None => action_of(command) is None,
        },
{
    let mut s = String::new();
    match command {
        Command::Rdns { command: RdnsCommand::SetPtr { ip, ptr } } => {
            push_str(&mut s, "set the PTR record for ");
            push_str(&mut s, ip.as_str());
            push_str(&mut s, " to \"");
            push_str(&mut s, ptr.as_str());
            push_str(&mut s, "\"");
        },
        Command::Reset { command: ResetCommand::Run { number, kind } } => {
            push_str(&mut s, "reset server ");
            push_decimal(&mut s, *number as u64);
            push_str(&mut s, " (");
            push_str(&mut s, kind.label());
            push_str(&mut s, ")");
        },
        Command::Boot { command: BootCommand::Rescue { command: RescueCommand::Activate { number, .. } } } => {
            push_str(&mut s, "activate the rescue system for server ");
            push_decimal(&mut s, *number as u64);
        },
        Command::Boot { command: BootCommand::Rescue { command: RescueCommand::Deactivate { number } } } => {
            push_str(&mut s, "deactivate the rescue system for server ");
            push_decimal(&mut s, *number as u64);
        },
        Command::Failover { command: FailoverCommand::Route { ip, active_server_ip } } => {
            push_str(&mut s, "route failover IP ");
            push_str(&mut s, ip.as_str());
            push_str(&mut s, " to ");
            push_str(&mut s, active_server_ip.as_str());
        },
        Command::Vswitch { command: VSwitchCommand::Create { name, vlan } } => {
            push_str(&mut s, "create vSwitch \"");
            push_str(&mut s, name.as_str());
            push_str(&mut s, "\" (vlan ");
            push_decimal(&mut s, *vlan as u64);
            push_str(&mut s, ")");
        },
        Command::Vswitch { command: VSwitchCommand::Connect { id, servers } } => {
            push_str(&mut s, "connect ");
            push_decimal(&mut s, servers.len() as u64);
            push_str(&mut s, " server(s) to vSwitch ");
            push_decimal(&mut s, *id as u64);
        },
        Command::Vswitch { command: VSwitchCommand::Disconnect { id, servers } } => {
            push_str(&mut s, "disconnect ");
            push_decimal(&mut s, servers.len() as u64);
            push_str(&mut s, " server(s) from vSwitch ");
            push_decimal(&mut s, *id as u64);
        },
        Command::Vswitch { command: VSwitchCommand::Cancel { id } } => {
            push_str(&mut s, "cancel vSwitch ");
            push_decimal(&mut s, *id as u64);
        },
        _ => {
            return None;
        },
    }
    assert(action_of(command) == Some(s@));
    Some(s)
}

/// Exactly the destructive commands have a description.
pub proof fn law_destructive_commands_are_described(c: &Command)
    ensures
        action_of(c) is Some <==> destructive(c),
{
}

/// Outcome of the destructive-operation confirmation check.
#[derive(Debug, PartialEq, Eq)]
pub enum Decision {
    /// `--dry-run`: print the action and do not execute it.
    DryRun,
    /// Confirmed (via `--yes` or an interactive `y`): execute it.
    Proceed,
    /// Not confirmed: refuse without executing.
    Refused,
}

/// An interactive answer that confirms: `y` or `yes` in any case, around
/// white space.
pub open spec fn is_affirmative(answer: Seq<char>) -> bool {
    crate::text::eq_ignore_ascii_case(crate::text::trim(answer), "y"@) || crate::text::eq_ignore_ascii_case(crate::text::trim(answer), "yes"@)
}

/// The confirmation decision: `--dry-run` always wins, `--yes` skips the
/// prompt, a non-interactive session is refused, and otherwise only an
/// affirmative answer proceeds.
pub open spec fn decision(
    dry_run: bool,
    yes: bool,
    interactive: bool,
    answer: Option<Seq<char>>,
) -> Decision {
    if dry_run {
        Decision::DryRun
    } else if yes {
        Decision::Proceed
    } else if !interactive {
        Decision::Refused
    } else {
        match answer {
            Some(a) => if is_affirmative(a) {
                Decision::Proceed
            } else {
                Decision::Refused
            },
            None => Decision::Refused,
        }
    }
}

/// Pure confirmation logic (testable without a terminal).
pub fn decide(dry_run: bool, yes: bool, interactive: bool, answer: Option<&str>) -> (d: Decision)
    ensures
        d == decision(
            dry_run,
            yes,
            interactive,
            match answer {
                Some(a) => Some(a@),
                None => None,
            },
        ),
{
    if dry_run {
        return Decision::DryRun;
    }
    if yes {
        return Decision::Proceed;
    }
    if !interactive {
        return Decision::Refused;
    }
    match answer {
        Some(a) => {
            let t = trimmed(a);
            let chars = chars_of(t.as_str());
            let y = chars_of("y");
            let full = chars_of("yes");
            if equal_ignoring_ascii_case(chars.as_slice(), y.as_slice())
                || equal_ignoring_ascii_case(chars.as_slice(), full.as_slice()) {
                Decision::Proceed
            } else {
                Decision::Refused
            }
        },
        None => Decision::Refused,
    }
}

/// Nothing destructive runs without consent: only `--yes` or an affirmative
/// interactive answer, and never a dry run, lead to execution; a
/// non-interactive session without `--yes` is always refused.
pub proof fn law_no_execution_without_consent(
    dry_run: bool,
    yes: bool,
    interactive: bool,
    answer: Option<Seq<char>>,
)
    ensures
        decision(dry_run, yes, interactive, answer) == Decision::Proceed ==> !dry_run && (yes || (
        interactive && answer is Some && is_affirmative(answer->0))),
        !dry_run && !yes && !interactive ==> decision(dry_run, yes, interactive, answer)
            == Decision::Refused,
        dry_run ==> decision(dry_run, yes, interactive, answer) == Decision::DryRun,
{
}

proof fn lemma_lower_letter(c: char, lower: char, upper: char)
    requires
        'a' <= lower <= 'z',
        upper as u32 == lower as u32 - 32,
    ensures
        crate::text::ascii_lower(c) == lower <==> (c == lower || c == upper),
{
}

/// Only `y` or `yes`, in any mix of upper and lower case and with surrounding
/// white space removed, lets an interactive session run a destructive
/// command: every other answer (`n`, `no`, an empty line, `yess`, ...) and a
/// missing answer refuse it.
pub proof fn law_only_yes_proceeds(answer: Seq<char>)
    ensures
        ({
            let t = crate::text::trim(answer);
            decision(false, false, true, Some(answer)) == Decision::Proceed <==> ((t.len() == 1 && (
            t[0] == 'y' || t[0] == 'Y')) || (t.len() == 3 && (t[0] == 'y' || t[0] == 'Y') && (t[1]
                == 'e' || t[1] == 'E') && (t[2] == 's' || t[2] == 'S')))
        }),
        decision(false, false, true, Some(answer)) != Decision::Proceed ==> decision(
            false,
            false,
            true,
            Some(answer),
        ) == Decision::Refused,
        decision(false, false, true, None) == Decision::Refused,
{
    reveal_strlit("y");
    reveal_strlit("yes");
    let t = crate::text::trim(answer);
    lemma_lower_letter('y', 'y', 'Y');
    lemma_lower_letter('e', 'e', 'E');
    lemma_lower_letter('s', 's', 'S');
    if t.len() >= 1 {
        lemma_lower_letter(t[0], 'y', 'Y');
    }
    if t.len() >= 2 {
        lemma_lower_letter(t[1], 'e', 'E');
    }
    if t.len() >= 3 {
        lemma_lower_letter(t[2], 's', 'S');
    }
    let y = "y"@;
    let yes = "yes"@;
    assert(crate::text::eq_ignore_ascii_case(t, y) <==> (t.len() == 1 && (t[0] == 'y' || t[0] == 'Y'))) by {
        if t.len() == 1 && (t[0] == 'y' || t[0] == 'Y') {
            assert(crate::text::ascii_lower(t[0]) == crate::text::ascii_lower(y[0]));
        }
    }
    assert(crate::text::eq_ignore_ascii_case(t, yes) <==> (t.len() == 3 && (t[0] == 'y' || t[0] == 'Y')
        && (t[1] == 'e' || t[1] == 'E') && (t[2] == 's' || t[2] == 'S'))) by {
        if t.len() == 3 && (t[0] == 'y' || t[0] == 'Y') && (t[1] == 'e' || t[1] == 'E') && (t[2] == 's'
            || t[2] == 'S') {
            assert(crate::text::ascii_lower(t[0]) == crate::text::ascii_lower(yes[0]));
            assert(crate::text::ascii_lower(t[1]) == crate::text::ascii_lower(yes[1]));
            assert(crate::text::ascii_lower(t[2]) == crate::text::ascii_lower(yes[2]));
        }
        if crate::text::eq_ignore_ascii_case(t, yes) {
            assert(crate::text::ascii_lower(t[0]) == crate::text::ascii_lower(yes[0]));
            assert(crate::text::ascii_lower(t[1]) == crate::text::ascii_lower(yes[1]));
            assert(crate::text::ascii_lower(t[2]) == crate::text::ascii_lower(yes[2]));
        }
    }
    assert(crate::text::eq_ignore_ascii_case(t, y) ==> crate::text::ascii_lower(t[0]) == crate::text::ascii_lower(y[0]));
}

/// What a confirmation decision means for the `action`: proceed (`true`),
/// stop after printing it (`false`), or refuse it.
///
/// # Errors
///
/// Returns [`Error::ConfirmationRequired`] when the decision is a refusal.
pub fn confirmation(decision: Decision, action: String) -> (r: Result<bool>)
    ensures
        match decision {
            Decision::Proceed => r matches Ok(b) && b,
            Decision::DryRun => r matches Ok(b) && !b,
            Decision::Refused => r matches Err(e) && e@ == ErrorView::ConfirmationRequired {
                action: action@,
            },
        },
{
    match decision {
        Decision::Proceed => Ok(true),
        Decision::DryRun => Ok(false),
        Decision::Refused => Err(Error::ConfirmationRequired { action }),
    }
}

/// Runs what a destructive command does (`work`, everything that sends
/// requests) only when the decision is to proceed. A dry run stops
/// with `Ok(None)` and a refusal with [`Error::ConfirmationRequired`], both
/// without running `work`, so their results do not depend on it.
///
/// # Errors
///
/// Returns [`Error::ConfirmationRequired`] for a refusal, and the error of
/// `work` when it ran and failed.
pub fn run_confirmed<R, F: FnOnce() -> Result<R>>(decision: Decision, action: String, work: F) -> (r:
    Result<Option<R>>)
    requires
        decision == Decision::Proceed ==> work.requires(()),
    ensures
        match decision {
            Decision::Proceed => exists|out: Result<R>|
                #[trigger] work.ensures((), out) && r == match out {
                    Ok(v) => Ok::<Option<R>, Error>(Some(v)),
                    Err(e) => Err(e),
                },
            Decision::DryRun => r matches Ok(None),
            Decision::Refused => r matches Err(e) && e@ == ErrorView::ConfirmationRequired {
                action: action@,
            },
        },
{
    match decision {
        Decision::Proceed => {
            let out = work();
            match out {
                Ok(v) => Ok(Some(v)),
                Err(e) => Err(e),
            }
        },
        Decision::DryRun => Ok(None),
        Decision::Refused => Err(Error::ConfirmationRequired { action }),
    }
}

/// Whether running `command` needs real credentials: a dry run of a
/// destructive command sends nothing and needs none.
pub fn needs_credentials(dry_run: bool, command: &Command) -> (b: bool)
    ensures
        b == !(dry_run && destructive(command)),
{
    !(dry_run && is_destructive(command))
}

/// Placeholder credentials for a dry run, which never reach the network.
pub fn dry_run_credentials() -> (c: Credentials)
    ensures
        c.user() == "dry-run"@ && c.pass() == "dry-run"@,
{
    let u = "dry-run";
    let p = "dry-run";
    proof {
        reveal_strlit("dry-run");
    }
    Credentials::new(u, p).unwrap()
}

/// `s` without trailing line breaks.
pub open spec fn strip_line_breaks(s: Seq<char>) -> Seq<char>
    decreases s.len(),
{
    if s.len() > 0 && (s.last() == '\n' || s.last() == '\r') {
        strip_line_breaks(s.drop_last())
    } else {
        s
    }
}

/// The password held by a `--password-file`: its contents without trailing
/// line breaks.
pub fn password_from_file(contents: &str) -> (p: String)
    ensures
        p@ == strip_line_breaks(contents@),
{
    let chars = chars_of(contents);
    let mut end = chars.len();
    assert(chars@.take(end as int) =~= chars@);
    while end > 0 && (chars[end - 1] == '\n' || chars[end - 1] == '\r')
        invariant
            end <= chars@.len(),
            strip_line_breaks(chars@) == strip_line_breaks(chars@.take(end as int)),
        decreases end,
    {
        assert(chars@.take(end as int).drop_last() =~= chars@.take(end - 1));
        end = end - 1;
    }
    assert(chars@.subrange(0, end as int) =~= chars@.take(end as int));
    string_from(chars.as_slice(), 0, end)
}


/// A credential value read from the environment: an empty value counts as
/// absent, as for an unset variable.
pub fn env_value(raw: Option<String>) -> (v: Option<String>)
    ensures
        match raw {
            Some(t) => if t@.len() == 0 {
                v is None
            } else {
                v == Some(t)
            },
            None => v is None,
        },
{
    match raw {
        Some(t) => if t.as_str().is_empty() {
            None
        } else {
            Some(t)
        },
        None => None,
    }
}

} // verus!
