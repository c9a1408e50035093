use futures::channel::mpsc;
use futures::executor::block_on;
use futures::future::join;
use futures::{SinkExt, StreamExt};
use tox_node::address::SocketAddress;
use tox_node::bridge::{
    create_bridge, on_handled, on_item, select_consumer, Channel, Consumer, Endpoints, Engine,
    ItemAction, LoopStep, DHT_CHANNEL_SIZE, ONION_CHANNEL_SIZE,
};
use tox_node::supervisor::{plan_node, NodeConfig};

/// What a bridging loop did with the items it received.
#[derive(Debug, Default, PartialEq)]
struct Record {
    delivered: Vec<u32>,
    dropped: Vec<u32>,
    warnings: usize,
}

/// The bridging loop of one channel, with an engine that rejects odd items.
async fn bridging_loop(mut rx: mpsc::Receiver<u32>, consumer: Consumer) -> Record {
    let mut record = Record::default();
    while let Some(item) = rx.next().await {
        match on_item(consumer) {
            ItemAction::Deliver => {
                record.delivered.push(item);
                match on_handled(item % 2 == 0) {
                    LoopStep::Next => {},
                    LoopStep::WarnThenNext => record.warnings += 1,
                }
            },
            ItemAction::Drop => record.dropped.push(item),
        }
    }
    record
}

async fn send_all(mut tx: mpsc::Sender<u32>, items: Vec<u32>) {
    for item in items {
        tx.send(item).await.unwrap();
    }
}

fn node(tcp: bool, udp: bool) -> NodeConfig {
    let addr = SocketAddress::V4 { octets: [127, 0, 0, 1], port: 33445 };
    NodeConfig {
        tcp_addrs: if tcp { vec![addr] } else { vec![] },
        udp_addr: if udp { Some(addr) } else { None },
        lan_discovery_enabled: false,
    }
}

#[test]
fn channel_sizes() {
    assert_eq!(ONION_CHANNEL_SIZE, 32);
    assert_eq!(DHT_CHANNEL_SIZE, 32);
}

#[test]
fn bridge_sides_are_crossed() {
    let (relay, discovery) = create_bridge();
    assert_eq!(
        relay,
        Endpoints { sends_on: Channel::RelayToDiscovery, receives_from: Channel::DiscoveryToRelay }
    );
    assert_eq!(
        discovery,
        Endpoints { sends_on: Channel::DiscoveryToRelay, receives_from: Channel::RelayToDiscovery }
    );
    assert_eq!(relay.sends_on, discovery.receives_from);
    assert_eq!(discovery.sends_on, relay.receives_from);
    assert_ne!(relay.sends_on, discovery.sends_on);
}

#[test]
fn channels_name_their_ends() {
    assert_eq!(Channel::DiscoveryToRelay.producer(), Engine::Discovery);
    assert_eq!(Channel::DiscoveryToRelay.destination(), Engine::Relay);
    assert_eq!(Channel::RelayToDiscovery.producer(), Engine::Relay);
    assert_eq!(Channel::RelayToDiscovery.destination(), Engine::Discovery);
}

#[test]
fn consumer_is_the_engine_where_it_runs() {
    assert_eq!(select_consumer(Channel::DiscoveryToRelay, true, true), Consumer::Engine);
    assert_eq!(select_consumer(Channel::DiscoveryToRelay, true, false), Consumer::Engine);
    assert_eq!(select_consumer(Channel::RelayToDiscovery, true, true), Consumer::Engine);
    assert_eq!(select_consumer(Channel::RelayToDiscovery, false, true), Consumer::Engine);
}

#[test]
fn consumer_discards_where_the_engine_is_absent() {
    assert_eq!(select_consumer(Channel::DiscoveryToRelay, false, true), Consumer::Discard);
    assert_eq!(select_consumer(Channel::DiscoveryToRelay, false, false), Consumer::Discard);
    assert_eq!(select_consumer(Channel::RelayToDiscovery, true, false), Consumer::Discard);
    assert_eq!(select_consumer(Channel::RelayToDiscovery, false, false), Consumer::Discard);
}

#[test]
fn items_are_delivered_or_dropped_by_consumer() {
    assert_eq!(on_item(Consumer::Engine), ItemAction::Deliver);
    assert_eq!(on_item(Consumer::Discard), ItemAction::Drop);
}

#[test]
fn rejected_item_warns_and_the_loop_goes_on() {
    assert_eq!(on_handled(true), LoopStep::Next);
    assert_eq!(on_handled(false), LoopStep::WarnThenNext);
}

#[test]
fn drained_channel_takes_more_items_than_it_holds() {
    let plan = plan_node(&node(false, true)).unwrap();
    let consumer = plan.consumer(Channel::DiscoveryToRelay);
    let (tx, rx) = mpsc::channel::<u32>(ONION_CHANNEL_SIZE);
    let items: Vec<u32> = (0..1000).collect();
    let ((), record) = block_on(join(send_all(tx, items.clone()), bridging_loop(rx, consumer)));
    assert_eq!(record, Record { delivered: vec![], dropped: items, warnings: 0 });
}

#[test]
fn channel_without_consumer_fills_up_at_its_capacity() {
    let (mut tx, _rx) = mpsc::channel::<u32>(ONION_CHANNEL_SIZE);
    let mut accepted = 0;
    while tx.try_send(accepted).is_ok() {
        accepted += 1;
        assert!(accepted < 1000);
    }
    assert!(accepted as usize >= ONION_CHANNEL_SIZE);
    assert!(accepted as usize <= ONION_CHANNEL_SIZE + 1);
}

#[test]
fn both_directions_deliver_their_own_items_once() {
    let plan = plan_node(&node(true, true)).unwrap();
    let (relay, discovery) = create_bridge();
    let (to_relay_tx, to_relay_rx) = mpsc::channel::<u32>(ONION_CHANNEL_SIZE);
    let (to_discovery_tx, to_discovery_rx) = mpsc::channel::<u32>(ONION_CHANNEL_SIZE);
    assert_eq!(discovery.sends_on, Channel::DiscoveryToRelay);
    assert_eq!(relay.sends_on, Channel::RelayToDiscovery);
    let sends = join(send_all(to_relay_tx, vec![2]), send_all(to_discovery_tx, vec![4]));
    let loops = join(
        bridging_loop(to_relay_rx, plan.consumer(relay.receives_from)),
        bridging_loop(to_discovery_rx, plan.consumer(discovery.receives_from)),
    );
    let (_, (at_relay, at_discovery)) = block_on(join(sends, loops));
    assert_eq!(at_relay, Record { delivered: vec![2], dropped: vec![], warnings: 0 });
    assert_eq!(at_discovery, Record { delivered: vec![4], dropped: vec![], warnings: 0 });
}

#[test]
fn rejected_items_do_not_stop_the_bridge() {
    let plan = plan_node(&node(true, true)).unwrap();
    let consumer = plan.consumer(Channel::RelayToDiscovery);
    let (tx, rx) = mpsc::channel::<u32>(ONION_CHANNEL_SIZE);
    let items: Vec<u32> = (0..100).collect();
    let ((), record) = block_on(join(send_all(tx, items.clone()), bridging_loop(rx, consumer)));
    assert_eq!(record, Record { delivered: items, dropped: vec![], warnings: 50 });
}
