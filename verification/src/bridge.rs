//! The onion bridge between the discovery engine and the relay engine.
//!
//! Two bounded channels connect the engines. One carries what the discovery
//! engine produces for the relay engine, the other what the relay engine
//! produces for the discovery engine. Each channel has exactly one consumer
//! at all times: the engine at its far end, or, where that engine is not
//! started, a loop that takes every item and throws it away. Without that
//! loop a producer would fill the channel and then wait forever.

use vstd::prelude::*;

verus! {

/// Capacity of each onion channel between the two engines.
pub const ONION_CHANNEL_SIZE: usize = 32;

/// Capacity of the channel on which the discovery engine hands packets to
/// the network.
pub const DHT_CHANNEL_SIZE: usize = 32;

/// One direction of the bridge.
#[derive(Clone, Copy, Debug, PartialEq, Eq, Structural)]
pub enum Channel {
    /// From the discovery engine to the relay engine.
    DiscoveryToRelay,
    /// From the relay engine to the discovery engine.
    RelayToDiscovery,
}

/// One of the two engines.
#[derive(Clone, Copy, Debug, PartialEq, Eq, Structural)]
pub enum Engine {
    /// The engine on the datagram transport.
    Discovery,
    /// The engine on the stream transport.
    Relay,
}

/// Who takes the items out of a channel.
#[derive(Clone, Copy, Debug, PartialEq, Eq, Structural)]
pub enum Consumer {
    /// The engine at the far end handles each item.
    Engine,
    /// Each item is taken and dropped.
    Discard,
}

/// What one engine holds of the bridge: the sending half of the channel
/// that the other engine consumes, and the receiving half of the channel
/// that the other engine feeds.
#[derive(Clone, Copy, Debug, PartialEq, Eq, Structural)]
pub struct Endpoints {
    /// The channel this side sends on.
    pub sends_on: Channel,
    /// The channel this side receives from.
    pub receives_from: Channel,
}

impl Channel {
    /// The engine that puts items into this channel.
    pub open spec fn spec_producer(&self) -> Engine {
        match *self {
            Channel::DiscoveryToRelay => Engine::Discovery,
            Channel::RelayToDiscovery => Engine::Relay,
        }
    }

    /// The engine that this channel leads to.
    pub open spec fn spec_destination(&self) -> Engine {
        match *self {
            Channel::DiscoveryToRelay => Engine::Relay,
            Channel::RelayToDiscovery => Engine::Discovery,
        }
    }

    /// The engine that puts items into this channel.
    #[verifier::when_used_as_spec(spec_producer)]
    pub fn producer(&self) -> (engine: Engine)
        ensures
            engine == self.spec_producer(),
    {
        match self {
            Channel::DiscoveryToRelay => Engine::Discovery,
            Channel::RelayToDiscovery => Engine::Relay,
        }
    }

    /// The engine that this channel leads to.
    #[verifier::when_used_as_spec(spec_destination)]
    pub fn destination(&self) -> (engine: Engine)
        ensures
            engine == self.spec_destination(),
    {
        match self {
            Channel::DiscoveryToRelay => Engine::Relay,
            Channel::RelayToDiscovery => Engine::Discovery,
        }
    }
}

/// The endpoints of an engine: it sends on the channel it produces for and
/// receives from the channel that leads to it.
pub open spec fn endpoints_of(engine: Engine) -> Endpoints {
    match engine {
        Engine::Discovery => Endpoints {
            sends_on: Channel::DiscoveryToRelay,
            receives_from: Channel::RelayToDiscovery,
        },
        Engine::Relay => Endpoints {
            sends_on: Channel::RelayToDiscovery,
            receives_from: Channel::DiscoveryToRelay,
        },
    }
}

/// Lays out the bridge: the endpoints of the relay engine, then those of
/// the discovery engine.
pub fn create_bridge() -> (sides: (Endpoints, Endpoints))
    ensures
        sides.0 == endpoints_of(Engine::Relay),
        sides.1 == endpoints_of(Engine::Discovery),
{
    let relay = Endpoints {
        sends_on: Channel::RelayToDiscovery,
        receives_from: Channel::DiscoveryToRelay,
    };
    let discovery = Endpoints {
        sends_on: Channel::DiscoveryToRelay,
        receives_from: Channel::RelayToDiscovery,
    };
    (relay, discovery)
}

/// The consumer of a channel: the engine it leads to where that engine
/// runs, a discarding loop where it does not.
pub open spec fn consumer_of(channel: Channel, relay_runs: bool, discovery_runs: bool) -> Consumer {
    let runs = match channel.spec_destination() {
        Engine::Relay => relay_runs,
        Engine::Discovery => discovery_runs,
    };
    if runs {
        Consumer::Engine
    } else {
        Consumer::Discard
    }
}

/// Chooses the consumer of a channel from which engines run.
pub fn select_consumer(channel: Channel, relay_runs: bool, discovery_runs: bool) -> (consumer:
    Consumer)
    ensures
        consumer == consumer_of(channel, relay_runs, discovery_runs),
{
    let runs = match channel.destination() {
        Engine::Relay => relay_runs,
        Engine::Discovery => discovery_runs,
    };
    if runs {
        Consumer::Engine
    } else {
        Consumer::Discard
    }
}

/// What the bridging loop does with an item it has received.
#[derive(Clone, Copy, Debug, PartialEq, Eq, Structural)]
pub enum ItemAction {
    /// Hand the item to the engine.
    Deliver,
    /// Drop the item.
    Drop,
}

/// How the bridging loop goes on once the engine has seen an item. There
/// is no step that ends the loop: a single bad item never stops the bridge.
#[derive(Clone, Copy, Debug, PartialEq, Eq, Structural)]
pub enum LoopStep {
    /// Receive the next item.
    Next,
    /// Log a warning, then receive the next item.
    WarnThenNext,
}

/// The action that a consumer takes on each item.
pub open spec fn action_of(consumer: Consumer) -> ItemAction {
    match consumer {
        Consumer::Engine => ItemAction::Deliver,
        Consumer::Discard => ItemAction::Drop,
    }
}

/// The step that follows the engine's verdict on an item.
pub open spec fn step_after(accepted: bool) -> LoopStep {
    if accepted {
        LoopStep::Next
    } else {
        LoopStep::WarnThenNext
    }
}

/// Decides what to do with a received item.
pub fn on_item(consumer: Consumer) -> (action: ItemAction)
    ensures
        action == action_of(consumer),
{
    match consumer {
        Consumer::Engine => ItemAction::Deliver,
        Consumer::Discard => ItemAction::Drop,
    }
}

/// Decides how to go on after the engine accepted or rejected an item.
pub fn on_handled(accepted: bool) -> (step: LoopStep)
    ensures
        step == step_after(accepted),
{
    if accepted {
        LoopStep::Next
    } else {
        LoopStep::WarnThenNext
    }
}

/// One direction of the bridge as seen from outside: the items that wait
/// in the channel, oldest first, and what the consumer has done with the
/// items it took, in the order in which it took them.
pub struct Lane<T> {
    /// The items that wait in the channel, oldest first.
    pub queued: Seq<T>,
    /// The items that were handed to the engine.
    pub delivered: Seq<T>,
    /// The items that were thrown away.
    pub dropped: Seq<T>,
}

impl<T> Lane<T> {
    /// An empty lane on which nothing has happened yet.
    pub open spec fn empty() -> Lane<T> {
        Lane { queued: Seq::empty(), delivered: Seq::empty(), dropped: Seq::empty() }
    }

    /// The channel never holds more than its capacity.
    pub open spec fn within_capacity(self) -> bool {
        self.queued.len() <= ONION_CHANNEL_SIZE
    }

    /// A send goes through while the channel is not full; a producer that
    /// finds it full has to wait.
    pub open spec fn can_send(self) -> bool {
        self.queued.len() < ONION_CHANNEL_SIZE
    }

    /// The lane after a send.
    pub open spec fn send(self, item: T) -> Lane<T> {
        Lane { queued: self.queued.push(item), ..self }
    }

    /// The consumer can take an item while one is waiting.
    pub open spec fn can_take(self) -> bool {
        self.queued.len() > 0
    }

    /// The lane after the consumer took the oldest item and acted on it.
    pub open spec fn take(self, consumer: Consumer) -> Lane<T> {
        match action_of(consumer) {
            ItemAction::Deliver => Lane {
                queued: self.queued.drop_first(),
                delivered: self.delivered.push(self.queued.first()),
                dropped: self.dropped,
            },
            ItemAction::Drop => Lane {
                queued: self.queued.drop_first(),
                delivered: self.delivered,
                dropped: self.dropped.push(self.queued.first()),
            },
        }
    }

    /// The lane after the producer has sent `items` one by one, where the
    /// consumer takes an item whenever the producer finds the channel full.
    pub open spec fn send_all(self, consumer: Consumer, items: Seq<T>) -> Lane<T>
        decreases items.len(),
    {
        if items.len() == 0 {
            self
        } else {
            let ready = if self.can_send() {
                self
            } else {
                self.take(consumer)
            };
            ready.send(items.first()).send_all(consumer, items.drop_first())
        }
    }

    /// What a consumer of this kind has taken so far, followed by what
    /// still waits: everything that was sent, in the order of sending, as
    /// long as the lane has had no other kind of consumer.
    pub open spec fn history(self, consumer: Consumer) -> Seq<T> {
        match action_of(consumer) {
            ItemAction::Deliver => self.delivered + self.queued,
            ItemAction::Drop => self.dropped + self.queued,
        }
    }
}

/// A full channel does not stay full: its consumer, an engine or the
/// discarding loop, can always take an item, and after that the next send
/// goes through.
pub proof fn lemma_full_lane_is_relieved<T>(lane: Lane<T>, consumer: Consumer)
    requires
        lane.within_capacity(),
        !lane.can_send(),
    ensures
        lane.can_take(),
        lane.take(consumer).can_send(),
        lane.take(consumer).within_capacity(),
{
}

/// Any number of items, more than the capacity too, can be sent through a
/// lane whose consumer keeps taking: the channel never exceeds its
/// capacity, nothing is lost or reordered, and a consumer of one kind
/// leaves the other kind's record untouched.
pub proof fn lemma_send_all_goes_through<T>(lane: Lane<T>, consumer: Consumer, items: Seq<T>)
    requires
        lane.within_capacity(),
    ensures
        lane.send_all(consumer, items).within_capacity(),
        lane.send_all(consumer, items).history(consumer) == lane.history(consumer) + items,
        consumer == Consumer::Discard ==> lane.send_all(consumer, items).delivered
            == lane.delivered,
        consumer == Consumer::Engine ==> lane.send_all(consumer, items).dropped == lane.dropped,
    decreases items.len(),
{
    if items.len() > 0 {
        let ready = if lane.can_send() {
            lane
        } else {
            lane.take(consumer)
        };
        let sent = ready.send(items.first());
        assert(ready.history(consumer) =~= lane.history(consumer));
        assert(sent.history(consumer) =~= lane.history(consumer).push(items.first()));
        lemma_send_all_goes_through(sent, consumer, items.drop_first());
        assert(lane.history(consumer).push(items.first()) + items.drop_first()
            =~= lane.history(consumer) + items);
    } else {
        assert(lane.history(consumer) + items =~= lane.history(consumer));
    }
}

/// With the relay engine absent, whatever the discovery engine sends is
/// dropped and nothing of it is ever delivered; with it present, nothing is
/// dropped.
pub proof fn lemma_absent_engine_receives_nothing<T>(
    lane: Lane<T>,
    relay_runs: bool,
    discovery_runs: bool,
    items: Seq<T>,
)
    requires
        lane.within_capacity(),
    ensures
        ({
            let consumer = consumer_of(Channel::DiscoveryToRelay, relay_runs, discovery_runs);
            let after = lane.send_all(consumer, items);
            &&& !relay_runs ==> after.delivered == lane.delivered
            &&& relay_runs ==> after.dropped == lane.dropped
        }),
{
    let consumer = consumer_of(Channel::DiscoveryToRelay, relay_runs, discovery_runs);
    lemma_send_all_goes_through(lane, consumer, items);
}

/// The two sides of the bridge are crossed: what one engine sends on is
/// what the other receives from, and the two channels are distinct, so an
/// item sent in one direction never shows up in the other.
pub proof fn lemma_bridge_is_crossed()
    ensures
        endpoints_of(Engine::Relay).sends_on == endpoints_of(Engine::Discovery).receives_from,
        endpoints_of(Engine::Discovery).sends_on == endpoints_of(Engine::Relay).receives_from,
        endpoints_of(Engine::Relay).sends_on != endpoints_of(Engine::Discovery).sends_on,
        forall|engine: Engine|
            (#[trigger] endpoints_of(engine)).sends_on.spec_producer() == engine && endpoints_of(
                engine,
            ).receives_from.spec_destination() == engine,
{
}

/// An item sent in each direction while both engines run is delivered once
/// to the engine at the far end of its channel and to nobody else.
pub proof fn lemma_each_item_is_delivered_once<A, B>(request: A, response: B)
    ensures
        ({
            let to_relay = consumer_of(Channel::DiscoveryToRelay, true, true);
            let to_discovery = consumer_of(Channel::RelayToDiscovery, true, true);
            let requests = Lane::<A>::empty().send(request).take(to_relay);
            let responses = Lane::<B>::empty().send(response).take(to_discovery);
            &&& requests.delivered == seq![request]
            &&& requests.queued.len() == 0 && requests.dropped.len() == 0
            &&& responses.delivered == seq![response]
            &&& responses.queued.len() == 0 && responses.dropped.len() == 0
        }),
{
    let to_relay = consumer_of(Channel::DiscoveryToRelay, true, true);
    let to_discovery = consumer_of(Channel::RelayToDiscovery, true, true);
    let requests = Lane::<A>::empty().send(request).take(to_relay);
    let responses = Lane::<B>::empty().send(response).take(to_discovery);
    assert(requests.delivered =~= seq![request]);
    assert(responses.delivered =~= seq![response]);
}

} // verus!
