use metalctl::api::boot::Rescue;
use metalctl::api::failover::Failover;
use metalctl::api::rdns::Rdns;
use metalctl::api::reset::{ResetOptions, ResetResult};
use metalctl::api::server::Server;
use metalctl::api::vswitch::{ConnectionStatus, VSwitch, VSwitchServer};
use metalctl::cli::{BootCommand, Command, RescueCommand, ServerCommand, VSwitchCommand};
use metalctl::output;

fn server(number: u32, name: &str, ip: &str) -> Server {
    Server {
        server_number: number,
        server_name: name.to_owned(),
        server_ip: ip.to_owned(),
        server_ipv6_net: None,
        product: None,
        status: None,
        dc: None,
    }
}

fn vswitch(id: u32, name: &str, vlan: u16, members: Vec<VSwitchServer>) -> VSwitch {
    VSwitch {
        id,
        name: name.to_owned(),
        vlan,
        cancelled: false,
        server: members,
        subnet: Vec::new(),
        cloud_network: Vec::new(),
    }
}

#[test]
fn server_table_pads_number_and_ip_columns() {
    let servers = vec![server(321, "alpha", "192.0.2.1"), server(322, "beta", "192.0.2.2")];
    let expected = format!(
        "{:<8} {:<16} {}\n{:<8} {:<16} {}\n",
        321, "192.0.2.1", "alpha", 322, "192.0.2.2", "beta"
    );
    assert_eq!(output::server_table(&servers), expected);
    assert_eq!(
        output::server_table(&servers[..1]),
        "321      192.0.2.1        alpha\n"
    );
}

#[test]
fn server_table_keeps_long_values_whole() {
    let servers = vec![server(123456789, "gamma", "2001:db8:ffff:ffff::1")];
    assert_eq!(
        output::server_table(&servers),
        "123456789 2001:db8:ffff:ffff::1 gamma\n"
    );
}

#[test]
fn server_table_reports_an_empty_account() {
    assert_eq!(output::server_table(&[]), "no servers\n");
}

#[test]
fn server_details_show_only_reported_fields() {
    let mut s = server(321, "alpha", "192.0.2.1");
    assert_eq!(
        output::server_details(&s),
        "number:  321\nname:    alpha\nip:      192.0.2.1\n"
    );
    s.server_ipv6_net = Some("2a01:db8::/64".to_owned());
    s.dc = Some("FSN1-DC14".to_owned());
    assert_eq!(
        output::server_details(&s),
        "number:  321\nname:    alpha\nip:      192.0.2.1\nipv6:    2a01:db8::/64\ndc:      FSN1-DC14\n"
    );
}

#[test]
fn rdns_details_mark_a_missing_ptr() {
    let entry = Rdns { ip: "192.0.2.1".to_owned(), ptr: None };
    assert_eq!(output::rdns_details(&entry), "ip:  192.0.2.1\nptr: (none)\n");
    let entry = Rdns { ip: "192.0.2.1".to_owned(), ptr: Some("host.example.com".to_owned()) };
    assert_eq!(output::rdns_details(&entry), "ip:  192.0.2.1\nptr: host.example.com\n");
}

#[test]
fn reset_texts_join_methods() {
    let options = ResetOptions {
        server_number: 321,
        types: vec!["sw".to_owned(), "hw".to_owned(), "power".to_owned()],
    };
    assert_eq!(output::reset_options(&options), "server:  321\nmethods: sw, hw, power\n");
    let none = ResetOptions { server_number: 7, types: Vec::new() };
    assert_eq!(output::reset_options(&none), "server:  7\nmethods: \n");
    let result = ResetResult { server_number: 321, kind: "power".to_owned() };
    assert_eq!(output::reset_result(&result), "server: 321\nreset:  power\n");
}

#[test]
fn rescue_details_show_reported_fields() {
    let rescue = Rescue {
        server_number: 321,
        os: Some("linux".to_owned()),
        arch: Some(64),
        active: Some(true),
        password: None,
    };
    assert_eq!(
        output::rescue_details(&rescue),
        "server:   321\nos:       linux\narch:     64\nactive:   true\n"
    );
    let bare = Rescue { server_number: 5, os: None, arch: None, active: Some(false), password: None };
    assert_eq!(output::rescue_details(&bare), "server:   5\nactive:   false\n");
}

#[test]
fn failover_texts_show_the_route() {
    let routed = Failover {
        ip: "198.51.100.1".to_owned(),
        netmask: None,
        active_server_ip: Some("192.0.2.1".to_owned()),
        server_ip: None,
    };
    let unrouted = Failover {
        ip: "198.51.100.2".to_owned(),
        netmask: None,
        active_server_ip: None,
        server_ip: None,
    };
    assert_eq!(output::failover_entry(&routed), "198.51.100.1 -> 192.0.2.1\n");
    assert_eq!(
        output::failover_table(&[routed, unrouted]),
        "198.51.100.1 -> 192.0.2.1\n198.51.100.2 -> (unrouted)\n"
    );
    assert_eq!(output::failover_table(&[]), "no failover IPs\n");
}

#[test]
fn vswitch_texts() {
    let members = vec![
        VSwitchServer {
            server_number: 321,
            status: ConnectionStatus::Ready,
            server_ip: None,
            server_ipv6_net: None,
        },
        VSwitchServer {
            server_number: 322,
            status: ConnectionStatus::InProcess,
            server_ip: None,
            server_ipv6_net: None,
        },
    ];
    let v = vswitch(4321, "backend", 4000, members);
    assert_eq!(output::vswitch_table(&[v.clone()]), "4321  vlan 4000  backend\n");
    assert_eq!(output::vswitch_table(&[]), "no vSwitches\n");
    let expected = format!(
        "id:        4321\nname:      backend\nvlan:      4000\ncancelled: false\nserver:    321 ({:?})\nserver:    322 ({:?})\n",
        ConnectionStatus::Ready,
        ConnectionStatus::InProcess
    );
    assert_eq!(output::vswitch_details(&v), expected);
    assert_eq!(output::vswitch_created(&v), "created vSwitch 4321 (vlan 4000)\n");
}

#[test]
fn completion_messages_follow_data_less_commands() {
    let connect = Command::Vswitch {
        command: VSwitchCommand::Connect { id: 9, servers: vec![1, 2, 3] },
    };
    assert_eq!(
        output::completion(&connect).as_deref(),
        Some("connected 3 server(s) to vSwitch 9\n")
    );
    let disconnect = Command::Vswitch {
        command: VSwitchCommand::Disconnect { id: 9, servers: vec![1] },
    };
    assert_eq!(
        output::completion(&disconnect).as_deref(),
        Some("disconnected 1 server(s) from vSwitch 9\n")
    );
    let cancel = Command::Vswitch { command: VSwitchCommand::Cancel { id: 9 } };
    assert_eq!(output::completion(&cancel).as_deref(), Some("cancelled vSwitch 9\n"));
    let deactivate = Command::Boot {
        command: BootCommand::Rescue { command: RescueCommand::Deactivate { number: 321 } },
    };
    assert_eq!(
        output::completion(&deactivate).as_deref(),
        Some("rescue system deactivated for server 321\n")
    );
    let list = Command::Server { command: ServerCommand::List };
    assert_eq!(output::completion(&list), None);
}
