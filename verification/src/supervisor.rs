//! Starting the two engines and turning the end of any of their tasks into
//! the end of the process.
//!
//! Planning is a function of the configuration alone: which listeners the
//! relay engine gets, how the discovery engine's socket is set up, and
//! which side of the onion bridge is only drained. Running is a small state
//! machine: the process starts, runs, and terminates with the result of
//! the first task that ends.

use crate::address::SocketAddress;
use crate::bridge::{consumer_of, select_consumer, Channel, Consumer};
use vstd::prelude::*;

verus! {

/// The part of the configuration that decides what is started.
#[derive(Debug, PartialEq, Eq)]
pub struct NodeConfig {
    /// Addresses on which the relay engine listens for connections.
    pub tcp_addrs: Vec<SocketAddress>,
    /// Address of the discovery engine's datagram socket.
    pub udp_addr: Option<SocketAddress>,
    /// Whether the node advertises itself on the local network.
    pub lan_discovery_enabled: bool,
}

/// Why the node refuses to start.
#[derive(Clone, Copy, Debug, PartialEq, Eq, Structural)]
pub enum StartupError {
    /// Neither a stream address nor a datagram address is configured.
    NoAddresses,
}

/// Options of the discovery engine's datagram socket.
#[derive(Clone, Copy, Debug, PartialEq, Eq, Structural)]
pub struct SocketOptions {
    /// Whether the socket may send to broadcast addresses.
    pub broadcast: bool,
    /// Whether multicast packets sent over IPv6 are looped back.
    pub multicast_loop_v6: bool,
}

/// What is started for the relay engine.
#[derive(Debug, PartialEq, Eq)]
pub enum RelayPlan {
    /// No stream address is configured: the engine is not started, and
    /// what the discovery engine sends towards it is drained.
    Drain,
    /// One listener per configured address, in the configured order.
    Serve { listeners: Vec<SocketAddress> },
}

/// How the discovery engine is started.
#[derive(Clone, Copy, Debug, PartialEq, Eq)]
pub struct DiscoverySettings {
    /// The address the datagram socket is bound to.
    pub addr: SocketAddress,
    /// The options set on the socket.
    pub socket: SocketOptions,
    /// Whether the engine handles IPv6 peers.
    pub ipv6_mode: bool,
    /// Whether the engine answers to and sends local-network
    /// advertisements. Where it does, a task that sends them runs beside
    /// the engine's main loop.
    pub lan_discovery: bool,
}

/// What is started for the discovery engine.
#[derive(Clone, Copy, Debug, PartialEq, Eq)]
pub enum DiscoveryPlan {
    /// No datagram address is configured: the engine is not started, and
    /// what the relay engine sends towards it is drained.
    Drain,
    /// The engine runs on one datagram socket.
    Serve(DiscoverySettings),
}

/// What is started for the whole node.
#[derive(Debug, PartialEq, Eq)]
pub struct NodePlan {
    /// The relay side.
    pub relay: RelayPlan,
    /// The discovery side.
    pub discovery: DiscoveryPlan,
}

/// The options of a datagram socket bound to `addr`: broadcast always, and
/// multicast loop-back for an IPv6 address.
pub open spec fn socket_options_for(addr: SocketAddress) -> SocketOptions {
    SocketOptions { broadcast: true, multicast_loop_v6: addr.spec_is_ipv6() }
}

/// The relay plan that belongs to a list of stream addresses.
pub open spec fn is_relay_plan_for(plan: RelayPlan, tcp_addrs: Seq<SocketAddress>) -> bool {
    match plan {
        RelayPlan::Drain => tcp_addrs.len() == 0,
        RelayPlan::Serve { listeners } => tcp_addrs.len() > 0 && listeners@ == tcp_addrs,
    }
}

/// The discovery plan that belongs to a datagram address and the
/// local-network setting.
pub open spec fn discovery_plan_for(
    udp_addr: Option<SocketAddress>,
    lan_discovery_enabled: bool,
) -> DiscoveryPlan {
    match udp_addr {
        None => DiscoveryPlan::Drain,
        Some(addr) => DiscoveryPlan::Serve(
            DiscoverySettings {
                addr,
                socket: socket_options_for(addr),
                ipv6_mode: addr.spec_is_ipv6(),
                lan_discovery: lan_discovery_enabled,
            },
        ),
    }
}

impl NodeConfig {
    /// Whether at least one transport is configured.
    pub open spec fn has_transport(&self) -> bool {
        self.tcp_addrs@.len() > 0 || self.udp_addr is Some
    }
}

impl RelayPlan {
    /// Whether the relay engine is started.
    pub open spec fn spec_runs(&self) -> bool {
        *self is Serve
    }

    /// Whether the relay engine is started.
    #[verifier::when_used_as_spec(spec_runs)]
    pub fn runs(&self) -> (runs: bool)
        ensures
            runs == self.spec_runs(),
    {
        match self {
            RelayPlan::Drain => false,
            RelayPlan::Serve { .. } => true,
        }
    }
}

impl DiscoveryPlan {
    /// Whether the discovery engine is started.
    pub open spec fn spec_runs(&self) -> bool {
        *self is Serve
    }

    /// Whether the discovery engine is started.
    #[verifier::when_used_as_spec(spec_runs)]
    pub fn runs(&self) -> (runs: bool)
        ensures
            runs == self.spec_runs(),
    {
        match self {
            DiscoveryPlan::Drain => false,
            DiscoveryPlan::Serve(_) => true,
        }
    }
}

/// The options to set on the discovery engine's socket once it is bound.
pub fn bind_socket(addr: &SocketAddress) -> (options: SocketOptions)
    ensures
        options == socket_options_for(*addr),
{
    SocketOptions { broadcast: true, multicast_loop_v6: addr.is_ipv6() }
}

/// Plans the relay side: a listener for each stream address, or draining
/// where there is none.
pub fn run_tcp(config: &NodeConfig) -> (plan: RelayPlan)
    ensures
        is_relay_plan_for(plan, config.tcp_addrs@),
{
    let count = config.tcp_addrs.len();
    if count == 0 {
        return RelayPlan::Drain;
    }
    let mut listeners: Vec<SocketAddress> = Vec::with_capacity(count);
    let mut i: usize = 0;
    while i < count
        invariant
            i <= count,
            count == config.tcp_addrs@.len(),
            listeners@ == config.tcp_addrs@.subrange(0, i as int),
        decreases count - i,
    {
        listeners.push(config.tcp_addrs[i]);
        i += 1;
    }
    assert(config.tcp_addrs@.subrange(0, count as int) =~= config.tcp_addrs@);
    RelayPlan::Serve { listeners }
}

/// Plans the discovery side: the engine on its socket, or draining where
/// no datagram address is configured.
pub fn run_udp(config: &NodeConfig) -> (plan: DiscoveryPlan)
    ensures
        plan == discovery_plan_for(config.udp_addr, config.lan_discovery_enabled),
{
    match config.udp_addr {
        None => DiscoveryPlan::Drain,
        Some(addr) => DiscoveryPlan::Serve(
            DiscoverySettings {
                addr,
                socket: bind_socket(&addr),
                ipv6_mode: addr.is_ipv6(),
                lan_discovery: config.lan_discovery_enabled,
            },
        ),
    }
}

/// Plans the node. A configuration without any address is refused; every
/// other one gets the plans of its two sides.
pub fn plan_node(config: &NodeConfig) -> (planned: Result<NodePlan, StartupError>)
    ensures
        match planned {
            Ok(plan) => {
                &&& config.has_transport()
                &&& is_relay_plan_for(plan.relay, config.tcp_addrs@)
                &&& plan.discovery == discovery_plan_for(
                    config.udp_addr,
                    config.lan_discovery_enabled,
                )
            },
            Err(error) => !config.has_transport() && error == StartupError::NoAddresses,
        },
{
    if config.tcp_addrs.len() == 0 && config.udp_addr.is_none() {
        return Err(StartupError::NoAddresses);
    }
    Ok(NodePlan { relay: run_tcp(config), discovery: run_udp(config) })
}

impl NodePlan {
    /// The consumer of a channel of the onion bridge under this plan.
    pub open spec fn spec_consumer(&self, channel: Channel) -> Consumer {
        consumer_of(channel, self.relay.spec_runs(), self.discovery.spec_runs())
    }

    /// The consumer of a channel of the onion bridge under this plan: the
    /// engine it leads to, or a discarding loop where that engine is not
    /// started.
    #[verifier::when_used_as_spec(spec_consumer)]
    pub fn consumer(&self, channel: Channel) -> (consumer: Consumer)
        ensures
            consumer == self.spec_consumer(channel),
    {
        select_consumer(channel, self.relay.runs(), self.discovery.runs())
    }
}

/// A task whose end is the end of the process.
#[derive(Clone, Copy, Debug, PartialEq, Eq, Structural)]
pub enum Task {
    /// The relay engine's listener on the stream address with this index.
    RelayListener { index: usize },
    /// The discovery engine's main loop on its socket.
    DiscoveryLoop,
    /// The sender of local-network advertisements.
    LanDiscovery,
}

/// Where the process stands. A process that has terminated stays so:
/// nothing is restarted.
#[derive(Debug, PartialEq, Eq)]
pub enum Phase<E> {
    /// Nothing runs yet.
    Initializing,
    /// The planned tasks run.
    Running,
    /// The process is over, with success or with the one error that ended
    /// it.
    Terminated(Result<(), E>),
}

/// What the supervisor is told.
#[derive(Debug, PartialEq, Eq)]
pub enum Event<E> {
    /// Every planned task has been started.
    Started,
    /// Starting failed, for instance because an address could not be
    /// bound.
    StartupFailed(E),
    /// A task has ended, normally or with an error.
    TaskEnded { task: Task, result: Result<(), E> },
}

/// The phase after an event. Starting leads from the initial phase to the
/// running one, or straight to a failed end. The first task that ends
/// while the node runs ends the process with its own result. Everything
/// else changes nothing: in particular, no event moves a terminated
/// process.
pub open spec fn next_phase<E>(phase: Phase<E>, event: Event<E>) -> Phase<E> {
    match phase {
        Phase::Initializing => match event {
            Event::Started => Phase::Running,
            Event::StartupFailed(error) => Phase::Terminated(Err(error)),
            Event::TaskEnded { .. } => Phase::Initializing,
        },
        Phase::Running => match event {
            Event::TaskEnded { result, .. } => Phase::Terminated(result),
            _ => Phase::Running,
        },
        Phase::Terminated(outcome) => Phase::Terminated(outcome),
    }
}

/// The phase after a sequence of events, taken in order.
pub open spec fn phase_after<E>(phase: Phase<E>, events: Seq<Event<E>>) -> Phase<E>
    decreases events.len(),
{
    if events.len() == 0 {
        phase
    } else {
        phase_after(next_phase(phase, events.first()), events.drop_first())
    }
}

/// Advances the process by one event.
pub fn supervise<E>(phase: Phase<E>, event: Event<E>) -> (next: Phase<E>)
    ensures
        next == next_phase(phase, event),
{
    match phase {
        Phase::Initializing => match event {
            Event::Started => Phase::Running,
            Event::StartupFailed(error) => Phase::Terminated(Err(error)),
            Event::TaskEnded { .. } => Phase::Initializing,
        },
        Phase::Running => match event {
            Event::TaskEnded { result, .. } => Phase::Terminated(result),
            _ => Phase::Running,
        },
        Phase::Terminated(outcome) => Phase::Terminated(outcome),
    }
}

/// Once terminated, the process keeps its outcome whatever happens next.
pub proof fn lemma_terminated_is_final<E>(outcome: Result<(), E>, events: Seq<Event<E>>)
    ensures
        phase_after(Phase::Terminated(outcome), events) == Phase::Terminated(outcome),
    decreases events.len(),
{
    if events.len() > 0 {
        lemma_terminated_is_final(outcome, events.drop_first());
    }
}

/// The first task to end decides: while the node runs, the end of any
/// task, be it a relay listener that failed, terminates the process with
/// that task's result, and what the other tasks do afterwards is not
/// waited for and changes nothing.
pub proof fn lemma_first_end_decides<E>(task: Task, result: Result<(), E>, later: Seq<Event<E>>)
    ensures
        phase_after(Phase::Running, seq![Event::TaskEnded { task, result }] + later)
            == Phase::Terminated(result),
{
    let events = seq![Event::TaskEnded { task, result }] + later;
    assert(events.first() == Event::TaskEnded { task, result });
    assert(events.drop_first() =~= later);
    lemma_terminated_is_final(result, later);
}

/// Under every plan each channel of the onion bridge has a consumer, and
/// it is the discarding loop exactly where the engine that the channel
/// leads to is not started.
pub proof fn lemma_absent_engine_is_drained(plan: NodePlan, channel: Channel)
    ensures
        plan.spec_consumer(Channel::DiscoveryToRelay) == Consumer::Discard
            <==> plan.relay is Drain,
        plan.spec_consumer(Channel::RelayToDiscovery) == Consumer::Discard
            <==> plan.discovery is Drain,
        plan.spec_consumer(channel) == Consumer::Engine || plan.spec_consumer(channel)
            == Consumer::Discard,
{
}

} // verus!
