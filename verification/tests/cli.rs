//! Tests of the command-line decisions and of the MCP server's guards.

use std::cell::Cell;

use metalctl::api::reset::ResetType;
use metalctl::cli::{
    action, confirmation, decide, dry_run_credentials, is_destructive, needs_credentials,
    password_from_file, BootCommand, Command, Decision, FailoverCommand, RdnsCommand,
    RescueCommand, ResetCommand, ResetKind, ServerCommand, VSwitchCommand,
};
use metalctl::mcp::{default_arch, default_kind, default_os, error_kind, require_confirm, ErrorKind};
use metalctl::{Credentials, Error};

#[test]
fn dry_run_always_wins() {
    assert_eq!(decide(true, false, true, None), Decision::DryRun);
    assert_eq!(decide(true, true, true, Some("y")), Decision::DryRun);
    assert_eq!(decide(true, false, false, None), Decision::DryRun);
}

#[test]
fn yes_skips_the_prompt() {
    assert_eq!(decide(false, true, false, None), Decision::Proceed);
    assert_eq!(decide(false, true, true, None), Decision::Proceed);
}

#[test]
fn non_interactive_without_yes_is_refused() {
    assert_eq!(decide(false, false, false, None), Decision::Refused);
    // A non-interactive session is refused even if an answer is supplied.
    assert_eq!(decide(false, false, false, Some("y")), Decision::Refused);
}

#[test]
fn interactive_requires_an_affirmative_answer() {
    assert_eq!(decide(false, false, true, Some("y\n")), Decision::Proceed);
    assert_eq!(decide(false, false, true, Some("YES")), Decision::Proceed);
    assert_eq!(decide(false, false, true, Some("n")), Decision::Refused);
    assert_eq!(decide(false, false, true, Some("")), Decision::Refused);
    assert_eq!(decide(false, false, true, None), Decision::Refused);
}

#[test]
fn affirmative_answers_ignore_case_and_surrounding_space() {
    assert_eq!(decide(false, false, true, Some("  Yes \r\n")), Decision::Proceed);
    assert_eq!(decide(false, false, true, Some("yeah")), Decision::Refused);
    assert_eq!(decide(false, false, true, Some("y y")), Decision::Refused);
}

#[test]
fn confirmation_outcomes() {
    assert!(confirmation(Decision::Proceed, "x".to_owned()).unwrap());
    assert!(!confirmation(Decision::DryRun, "x".to_owned()).unwrap());
    match confirmation(Decision::Refused, "cancel vSwitch 5".to_owned()) {
        Err(error @ Error::ConfirmationRequired { .. }) => {
            assert!(error.message().contains("confirmation"));
        }
        _ => panic!("refusal not reported"),
    }
}

fn vswitch(command: VSwitchCommand) -> Command {
    Command::Vswitch { command }
}

#[test]
fn destructive_commands_are_recognised_and_described() {
    let cancel = vswitch(VSwitchCommand::Cancel { id: 5 });
    assert!(is_destructive(&cancel));
    assert_eq!(action(&cancel).as_deref(), Some("cancel vSwitch 5"));

    let list = Command::Server { command: ServerCommand::List };
    assert!(!is_destructive(&list));
    assert_eq!(action(&list), None);

    let traffic = Command::Traffic {
        kind: "month".to_owned(),
        from: "a".to_owned(),
        to: "b".to_owned(),
        ips: vec![],
    };
    assert!(!is_destructive(&traffic));

    let set = Command::Rdns {
        command: RdnsCommand::SetPtr { ip: "192.0.2.1".to_owned(), ptr: "h.example".to_owned() },
    };
    assert_eq!(action(&set).as_deref(), Some("set the PTR record for 192.0.2.1 to \"h.example\""));
    let get = Command::Rdns { command: RdnsCommand::Get { ip: "192.0.2.1".to_owned() } };
    assert!(!is_destructive(&get));

    let reset = Command::Reset { command: ResetCommand::Run { number: 321, kind: ResetKind::Power } };
    assert_eq!(action(&reset).as_deref(), Some("reset server 321 (power)"));
    let methods = Command::Reset { command: ResetCommand::Methods { number: 321 } };
    assert!(!is_destructive(&methods));

    let activate = Command::Boot {
        command: BootCommand::Rescue {
            command: RescueCommand::Activate {
                number: 4,
                os: "linux".to_owned(),
                arch: "64".to_owned(),
                authorized_keys: vec![],
            },
        },
    };
    assert_eq!(action(&activate).as_deref(), Some("activate the rescue system for server 4"));
    let deactivate = Command::Boot {
        command: BootCommand::Rescue { command: RescueCommand::Deactivate { number: 4 } },
    };
    assert_eq!(action(&deactivate).as_deref(), Some("deactivate the rescue system for server 4"));
    let show = Command::Boot { command: BootCommand::Rescue { command: RescueCommand::Get { number: 4 } } };
    assert!(!is_destructive(&show));

    let route = Command::Failover {
        command: FailoverCommand::Route {
            ip: "192.0.2.9".to_owned(),
            active_server_ip: "192.0.2.1".to_owned(),
        },
    };
    assert_eq!(action(&route).as_deref(), Some("route failover IP 192.0.2.9 to 192.0.2.1"));

    let create = vswitch(VSwitchCommand::Create { name: "n".to_owned(), vlan: 4000 });
    assert_eq!(action(&create).as_deref(), Some("create vSwitch \"n\" (vlan 4000)"));
    let connect = vswitch(VSwitchCommand::Connect { id: 2, servers: vec![1, 2, 3] });
    assert_eq!(action(&connect).as_deref(), Some("connect 3 server(s) to vSwitch 2"));
    let disconnect = vswitch(VSwitchCommand::Disconnect { id: 2, servers: vec![1] });
    assert_eq!(action(&disconnect).as_deref(), Some("disconnect 1 server(s) from vSwitch 2"));
    assert!(!is_destructive(&vswitch(VSwitchCommand::Get { id: 2 })));
}

#[test]
fn dry_runs_of_destructive_commands_need_no_credentials() {
    let cancel = vswitch(VSwitchCommand::Cancel { id: 5 });
    assert!(!needs_credentials(true, &cancel));
    assert!(needs_credentials(false, &cancel));
    assert!(needs_credentials(true, &vswitch(VSwitchCommand::List)));
    let placeholder = dry_run_credentials();
    assert_eq!(
        placeholder.authorization(),
        Credentials::new("dry-run", "dry-run").unwrap().authorization()
    );
}

#[test]
fn password_files_lose_their_trailing_line_breaks() {
    assert_eq!(password_from_file("pass\n"), "pass");
    assert_eq!(password_from_file("pass\r\n\n"), "pass");
    assert_eq!(password_from_file(" pa ss "), " pa ss ");
}

#[test]
fn reset_kind_maps_to_api_type() {
    assert_eq!(ResetKind::Power.reset_type().as_str(), "power");
    assert_eq!(ResetKind::Sw.reset_type(), ResetType::Software);
    assert_eq!(ResetKind::Hw.label(), "hw");
}

#[test]
fn confirm_is_required() {
    assert!(require_confirm(false, "reset the server").is_err());
    assert!(require_confirm(true, "reset the server").is_ok());
    assert_eq!(
        require_confirm(false, "reset the server").unwrap_err(),
        "refusing to reset the server: call again with confirm=true once the user has approved"
    );
}

#[test]
fn not_found_is_reported_as_such() {
    assert_eq!(error_kind(&Error::Api { status: 404, message: String::new() }), ErrorKind::NotFound);
    assert_eq!(error_kind(&Error::Api { status: 500, message: String::new() }), ErrorKind::Internal);
    assert_eq!(error_kind(&Error::MissingCredentials), ErrorKind::Internal);
    assert_eq!((default_os(), default_arch(), default_kind()), ("linux".into(), "64".into(), "month".into()));
}

#[test]
fn work_runs_only_when_confirmed() {
    let runs = Cell::new(0);
    let work = || {
        runs.set(runs.get() + 1);
        Ok::<u32, metalctl::Error>(7)
    };
    assert!(matches!(metalctl::cli::run_confirmed(Decision::DryRun, "reset server 1 (sw)".to_string(), work), Ok(None)));
    assert_eq!(runs.get(), 0);
    match metalctl::cli::run_confirmed(Decision::Refused, "reset server 1 (sw)".to_string(), work) {
        Err(metalctl::Error::ConfirmationRequired { action }) => assert_eq!(action, "reset server 1 (sw)"),
        other => panic!("expected a refusal, got {other:?}"),
    }
    assert_eq!(runs.get(), 0);
    assert!(matches!(metalctl::cli::run_confirmed(Decision::Proceed, "reset server 1 (sw)".to_string(), work), Ok(Some(7))));
    assert_eq!(runs.get(), 1);
}
