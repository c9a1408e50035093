use tox_node::address::SocketAddress;
use tox_node::bridge::{Channel, Consumer};
use tox_node::supervisor::{
    bind_socket, plan_node, run_tcp, run_udp, supervise, DiscoveryPlan, DiscoverySettings, Event,
    NodeConfig, Phase, RelayPlan, SocketOptions, StartupError, Task,
};

fn v4(last: u8, port: u16) -> SocketAddress {
    SocketAddress::V4 { octets: [127, 0, 0, last], port }
}

fn v6(port: u16) -> SocketAddress {
    SocketAddress::V6 { segments: [0, 0, 0, 0, 0, 0, 0, 1], port, flowinfo: 0, scope_id: 0 }
}

fn config(tcp_addrs: Vec<SocketAddress>, udp_addr: Option<SocketAddress>) -> NodeConfig {
    NodeConfig { tcp_addrs, udp_addr, lan_discovery_enabled: false }
}

#[test]
fn socket_address_tells_family_and_port() {
    assert!(!v4(1, 33445).is_ipv6());
    assert!(v6(33446).is_ipv6());
    assert_eq!(v4(1, 33445).port(), 33445);
    assert_eq!(v6(33446).port(), 33446);
}

#[test]
fn socket_options_follow_the_address_family() {
    assert_eq!(
        bind_socket(&v4(1, 33445)),
        SocketOptions { broadcast: true, multicast_loop_v6: false }
    );
    assert_eq!(bind_socket(&v6(33445)), SocketOptions { broadcast: true, multicast_loop_v6: true });
}

#[test]
fn node_without_addresses_refuses_to_start() {
    assert_eq!(plan_node(&config(vec![], None)), Err(StartupError::NoAddresses));
    let mut with_lan = config(vec![], None);
    with_lan.lan_discovery_enabled = true;
    assert_eq!(plan_node(&with_lan), Err(StartupError::NoAddresses));
}

#[test]
fn relay_gets_one_listener_per_address_in_order() {
    let addrs = vec![v4(1, 33445), v6(33445), v4(2, 443)];
    assert_eq!(
        run_tcp(&config(addrs.clone(), None)),
        RelayPlan::Serve { listeners: addrs.clone() }
    );
    assert!(run_tcp(&config(addrs, Some(v4(1, 1)))).runs());
}

#[test]
fn relay_without_addresses_is_drained() {
    assert_eq!(run_tcp(&config(vec![], Some(v4(1, 33445)))), RelayPlan::Drain);
    assert!(!run_tcp(&config(vec![], Some(v4(1, 33445)))).runs());
}

#[test]
fn discovery_without_address_is_drained() {
    assert_eq!(run_udp(&config(vec![v4(1, 33445)], None)), DiscoveryPlan::Drain);
    assert!(!run_udp(&config(vec![v4(1, 33445)], None)).runs());
}

#[test]
fn discovery_on_ipv4_socket() {
    let plan = run_udp(&config(vec![], Some(v4(9, 33445))));
    assert_eq!(
        plan,
        DiscoveryPlan::Serve(DiscoverySettings {
            addr: v4(9, 33445),
            socket: SocketOptions { broadcast: true, multicast_loop_v6: false },
            ipv6_mode: false,
            lan_discovery: false,
        })
    );
    assert!(plan.runs());
}

#[test]
fn discovery_on_ipv6_socket_with_lan_discovery() {
    let mut node = config(vec![], Some(v6(33445)));
    node.lan_discovery_enabled = true;
    assert_eq!(
        run_udp(&node),
        DiscoveryPlan::Serve(DiscoverySettings {
            addr: v6(33445),
            socket: SocketOptions { broadcast: true, multicast_loop_v6: true },
            ipv6_mode: true,
            lan_discovery: true,
        })
    );
}

#[test]
fn stream_only_node_starts_and_runs_until_a_listener_fails() {
    let node = config(vec![v4(1, 33445)], None);
    let plan = plan_node(&node).unwrap();
    assert_eq!(plan.relay, RelayPlan::Serve { listeners: vec![v4(1, 33445)] });
    assert_eq!(plan.discovery, DiscoveryPlan::Drain);
    assert_eq!(plan.consumer(Channel::RelayToDiscovery), Consumer::Discard);
    assert_eq!(plan.consumer(Channel::DiscoveryToRelay), Consumer::Engine);

    let mut phase: Phase<&str> = Phase::Initializing;
    phase = supervise(phase, Event::Started);
    assert_eq!(phase, Phase::Running);
    phase = supervise(phase, Event::Started);
    assert_eq!(phase, Phase::Running);
    let ended = Event::TaskEnded {
        task: Task::RelayListener { index: 0 },
        result: Err("listener failed"),
    };
    phase = supervise(phase, ended);
    assert_eq!(phase, Phase::Terminated(Err("listener failed")));
}

#[test]
fn datagram_only_node_drains_the_relay_side() {
    let plan = plan_node(&config(vec![], Some(v4(1, 33445)))).unwrap();
    assert_eq!(plan.relay, RelayPlan::Drain);
    assert!(plan.discovery.runs());
    assert_eq!(plan.consumer(Channel::DiscoveryToRelay), Consumer::Discard);
    assert_eq!(plan.consumer(Channel::RelayToDiscovery), Consumer::Engine);
}

#[test]
fn node_with_both_transports_drains_nothing() {
    let plan = plan_node(&config(vec![v4(1, 1), v4(2, 2)], Some(v6(3)))).unwrap();
    assert!(plan.relay.runs());
    assert!(plan.discovery.runs());
    assert_eq!(plan.consumer(Channel::DiscoveryToRelay), Consumer::Engine);
    assert_eq!(plan.consumer(Channel::RelayToDiscovery), Consumer::Engine);
}

#[test]
fn listener_failure_ends_the_process_whatever_discovery_does_later() {
    let failed = Event::TaskEnded { task: Task::RelayListener { index: 1 }, result: Err(7) };
    let mut phase: Phase<i32> = supervise(Phase::Running, failed);
    assert_eq!(phase, Phase::Terminated(Err(7)));
    phase = supervise(phase, Event::TaskEnded { task: Task::DiscoveryLoop, result: Ok(()) });
    assert_eq!(phase, Phase::Terminated(Err(7)));
    phase = supervise(phase, Event::TaskEnded { task: Task::LanDiscovery, result: Err(9) });
    assert_eq!(phase, Phase::Terminated(Err(7)));
    phase = supervise(phase, Event::Started);
    assert_eq!(phase, Phase::Terminated(Err(7)));
    phase = supervise(phase, Event::StartupFailed(1));
    assert_eq!(phase, Phase::Terminated(Err(7)));
}

#[test]
fn first_task_to_end_normally_ends_the_process_too() {
    let ended = Event::TaskEnded { task: Task::DiscoveryLoop, result: Ok(()) };
    let mut phase: Phase<i32> = supervise(Phase::Running, ended);
    assert_eq!(phase, Phase::Terminated(Ok(())));
    phase = supervise(
        phase,
        Event::TaskEnded { task: Task::RelayListener { index: 0 }, result: Err(3) },
    );
    assert_eq!(phase, Phase::Terminated(Ok(())));
}

#[test]
fn startup_failure_terminates_before_running() {
    let phase: Phase<&str> = supervise(Phase::Initializing, Event::StartupFailed("bind"));
    assert_eq!(phase, Phase::Terminated(Err("bind")));
    let phase = supervise(phase, Event::Started);
    assert_eq!(phase, Phase::Terminated(Err("bind")));
}

#[test]
fn events_out_of_place_change_nothing() {
    let early = Event::TaskEnded { task: Task::LanDiscovery, result: Err(1) };
    let phase: Phase<i32> = supervise(Phase::Initializing, early);
    assert_eq!(phase, Phase::Initializing);
    let phase: Phase<i32> = supervise(Phase::Running, Event::StartupFailed(2));
    assert_eq!(phase, Phase::Running);
}
