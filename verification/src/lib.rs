//! A peer-to-peer gossip chat bridge: a network actor owns the overlay
//! engine; a synchronous turn-based consumer talks to it through a pair of
//! bounded channels, a small command protocol, and a capacity-limited chat
//! history.
//!
//! The actor side runs the engine's event loop; the consumer side enqueues
//! actions and polls events once per tick. All state crosses between the two
//! by value over the channels.

use vstd::prelude::*;

pub mod net;
pub mod strutil;
pub mod ui;

verus! {

/// A consumer-to-network intent, owned by the action channel until the
/// actor consumes it.
pub enum NetAction {
    /// Open a connection to the peer at this multi-segment address.
    Dial(String),
    /// Join the named topic.
    Subscribe(String),
    /// Leave the named topic.
    Unsubscribe(String),
    /// Broadcast a payload on the named topic.
    Publish(String, Vec<u8>),
}

/// The mathematical image of a [`NetAction`].
pub enum NetActionV {
    Dial(Seq<char>),
    Subscribe(Seq<char>),
    Unsubscribe(Seq<char>),
    Publish(Seq<char>, Seq<u8>),
}

impl View for NetAction {
    type V = NetActionV;

    open spec fn view(&self) -> NetActionV {
        match self {
            NetAction::Dial(a) => NetActionV::Dial(a@),
            NetAction::Subscribe(t) => NetActionV::Subscribe(t@),
            NetAction::Unsubscribe(t) => NetActionV::Unsubscribe(t@),
            NetAction::Publish(t, p) => NetActionV::Publish(t@, p@),
        }
    }
}

/// What the overlay engine reports, reduced to the plain values the
/// consumer reads: who connected, where the engine listens, and inbound
/// messages with their sender's identity.
pub enum EngineEvent {
    /// A connection to the named peer identity is up.
    ConnectionEstablished(String),
    /// The engine listens on this address.
    NewListenAddr(String),
    /// A peer published these bytes; the sender's identity comes first.
    InboundMessage(String, Vec<u8>),
    /// Any other engine report; the consumer ignores it.
    Other,
}

/// The mathematical image of an [`EngineEvent`].
pub enum EngineEventV {
    ConnectionEstablished(Seq<char>),
    NewListenAddr(Seq<char>),
    InboundMessage(Seq<char>, Seq<u8>),
    Other,
}

impl View for EngineEvent {
    type V = EngineEventV;

    open spec fn view(&self) -> EngineEventV {
        match self {
            EngineEvent::ConnectionEstablished(p) => EngineEventV::ConnectionEstablished(p@),
            EngineEvent::NewListenAddr(a) => EngineEventV::NewListenAddr(a@),
            EngineEvent::InboundMessage(p, d) => EngineEventV::InboundMessage(p@, d@),
            EngineEvent::Other => EngineEventV::Other,
        }
    }
}

/// A network-to-consumer occurrence: an engine event, or the one error kind
/// owed for each kind of rejected action, so failures correlate to the
/// action class without engine internals.
pub enum NetEvent {
    /// The engine reported something.
    SwarmEvent(EngineEvent),
    /// A subscribe or unsubscribe was rejected for this cause.
    SubscriptionError(String),
    /// A publish was rejected for this cause.
    PublishError(String),
    /// A dial was rejected for this cause.
    DialError(String),
}

/// The mathematical image of a [`NetEvent`].
pub enum NetEventV {
    SwarmEvent(EngineEventV),
    SubscriptionError(Seq<char>),
    PublishError(Seq<char>),
    DialError(Seq<char>),
}

impl View for NetEvent {
    type V = NetEventV;

    open spec fn view(&self) -> NetEventV {
        match self {
            NetEvent::SwarmEvent(e) => NetEventV::SwarmEvent(e@),
            NetEvent::SubscriptionError(c) => NetEventV::SubscriptionError(c@),
            NetEvent::PublishError(c) => NetEventV::PublishError(c@),
            NetEvent::DialError(c) => NetEventV::DialError(c@),
        }
    }
}

/// One non-blocking poll of a channel: an item, nothing pending, or the
/// other side gone for good.
pub enum Recv<T> {
    Item(T),
    Empty,
    Closed,
}

#[verifier::external_type_specification]
#[verifier::external_body]
#[verifier::reject_recursive_types(T)]
pub struct ExSender<T>(tokio::sync::mpsc::Sender<T>);

#[verifier::external_type_specification]
#[verifier::external_body]
#[verifier::reject_recursive_types(T)]
pub struct ExReceiver<T>(tokio::sync::mpsc::Receiver<T>);

/// The largest buffer a bounded channel may be created with.
pub const MAX_CHANNEL_BUFFER: usize = 0x1000_0000;

/// Relies on tokio::sync::mpsc::channel: a connected bounded sender and
/// receiver pair. It panics on a zero buffer and on one above the
/// semaphore's permit bound; the bound asked for here stays well inside
/// both.
#[verifier::external_body]
fn new_channel<T>(buffer: usize) -> (r: (
    tokio::sync::mpsc::Sender<T>,
    tokio::sync::mpsc::Receiver<T>,
))
    requires
        1 <= buffer <= MAX_CHANNEL_BUFFER,
{
    tokio::sync::mpsc::channel(buffer)
}

/// Relies on tokio::sync::mpsc::Sender::blocking_send: the value is
/// delivered, or comes back unchanged when the receive half is gone. It
/// blocks while the channel is full, and it must run outside the actor's
/// async context.
#[verifier::external_body]
fn send_blocking<T>(sender: &tokio::sync::mpsc::Sender<T>, value: T) -> (r: Result<(), T>)
    ensures
        r matches Err(v) ==> v == value,
{
    match sender.blocking_send(value) {
        Ok(()) => Ok(()),
        Err(tokio::sync::mpsc::error::SendError(v)) => Err(v),
    }
}

/// Relies on tokio::sync::mpsc::Receiver::try_recv: a queued item when one
/// is pending, `Empty` when none is, `Closed` once every send half is gone
/// and the queue is drained. What comes depends on the other side, so
/// nothing more is assumed of the outcome.
#[verifier::external_body]
fn try_recv_now<T>(receiver: &mut tokio::sync::mpsc::Receiver<T>) -> (r: Recv<T>) {
    match receiver.try_recv() {
        Ok(v) => Recv::Item(v),
        Err(tokio::sync::mpsc::error::TryRecvError::Empty) => Recv::Empty,
        Err(tokio::sync::mpsc::error::TryRecvError::Disconnected) => Recv::Closed,
    }
}

/// Relies on tokio::sync::mpsc::Receiver::blocking_recv: the next queued
/// item, or `None` once every send half is gone. It blocks while the
/// channel is open and idle, and it must run outside the actor's async
/// context.
#[verifier::external_body]
fn recv_blocking<T>(receiver: &mut tokio::sync::mpsc::Receiver<T>) -> (r: Option<T>) {
    receiver.blocking_recv()
}

/// The consumer-facing seam: it owns the send half of the action channel
/// and the receive half of the event channel, and nothing else crosses the
/// boundary.
pub struct Client {
    pub to_net_sender: tokio::sync::mpsc::Sender<NetAction>,
    pub from_net_receiver: tokio::sync::mpsc::Receiver<NetEvent>,
}

impl Client {
    /// Enqueues one action; blocks while the bounded queue is full, and
    /// hands the action back when the actor side is gone.
    pub fn send(&self, action: NetAction) -> (r: Result<(), NetAction>)
        ensures
            r matches Err(a) ==> a == action,
    {
        send_blocking(&self.to_net_sender, action)
    }

    /// Polls one event without blocking; safe to call every tick, even
    /// before the actor runs.
    pub fn try_receive(&mut self) -> (r: Recv<NetEvent>) {
        try_recv_now(&mut self.from_net_receiver)
    }
}

/// The actor-facing ends: the receive half of the action channel and the
/// send half of the event channel.
pub struct SwarmConfig {
    pub from_net_sender: tokio::sync::mpsc::Sender<NetEvent>,
    pub to_net_receiver: tokio::sync::mpsc::Receiver<NetAction>,
}

impl SwarmConfig {
    /// The next queued action, blocking until one arrives; `None` once the
    /// consumer side is gone.
    pub fn next_action(&mut self) -> (r: Option<NetAction>) {
        recv_blocking(&mut self.to_net_receiver)
    }

    /// Polls one queued action without blocking.
    pub fn try_next_action(&mut self) -> (r: Recv<NetAction>) {
        try_recv_now(&mut self.to_net_receiver)
    }

    /// Forwards one occurrence to the consumer; blocks while the bounded
    /// queue is full, and hands the event back when the consumer side is
    /// gone — fatal to the actor's own loop.
    pub fn emit(&self, event: NetEvent) -> (r: Result<(), NetEvent>)
        ensures
            r matches Err(e) ==> e == event,
    {
        send_blocking(&self.from_net_sender, event)
    }
}

/// Builds the two bounded channels and deals their four ends to the two
/// sides. The buffer bound is the machine limit of the channel primitive.
pub fn setup(channel_buffer: usize) -> (r: (Client, SwarmConfig))
    requires
        1 <= channel_buffer <= MAX_CHANNEL_BUFFER,
{
    let (to_net_sender, to_net_receiver) = new_channel(channel_buffer);
    let (from_net_sender, from_net_receiver) = new_channel(channel_buffer);
    (Client { to_net_sender, from_net_receiver }, SwarmConfig { from_net_sender, to_net_receiver })
}

/// The error event owed for one rejected action: exactly one kind of error
/// is attributable to each action class.
pub open spec fn spec_rejection(a: NetActionV, cause: Seq<char>) -> NetEventV {
    match a {
        NetActionV::Dial(_) => NetEventV::DialError(cause),
        NetActionV::Subscribe(_) => NetEventV::SubscriptionError(cause),
        NetActionV::Unsubscribe(_) => NetEventV::SubscriptionError(cause),
        NetActionV::Publish(_, _) => NetEventV::PublishError(cause),
    }
}

/// The one event the actor emits when the engine rejects an action: a
/// rejected dial becomes a `DialError`, a rejected membership change a
/// `SubscriptionError`, a rejected publish a `PublishError` — never
/// retried, never dropped.
pub fn rejection_event(action: &NetAction, cause: String) -> (e: NetEvent)
    ensures
        e@ == spec_rejection(action@, cause@),
{
    match action {
        NetAction::Dial(_) => NetEvent::DialError(cause),
        NetAction::Subscribe(_) => NetEvent::SubscriptionError(cause),
        NetAction::Unsubscribe(_) => NetEvent::SubscriptionError(cause),
        NetAction::Publish(_, _) => NetEvent::PublishError(cause),
    }
}

/// Whether the one-time bootstrap has run: it moves to `Running` on the
/// first driving call and never back.
pub enum Lifecycle {
    NotStarted,
    Running,
}

impl Lifecycle {
    /// Claims the one-time start: true exactly once, on the first call.
    pub fn begin(&mut self) -> (first: bool)
        ensures
            (*final(self)) is Running,
            first == ((*old(self)) is NotStarted),
    {
        match self {
            Lifecycle::NotStarted => {
                *self = Lifecycle::Running;
                true
            },
            Lifecycle::Running => false,
        }
    }
}

/// The default topic every session joins at startup.
pub open spec fn spec_default_topic() -> Seq<char> {
    "test-topic"@
}

/// The default topic as a fresh string.
pub fn default_topic() -> (t: String)
    ensures
        t@ == spec_default_topic(),
{
    "test-topic".to_owned()
}

/// The fixed rendezvous addresses dialed in order at startup.
pub open spec fn spec_bootstrap_addresses() -> Seq<Seq<char>> {
    seq![
        "/dns/1.node.ironverse.net/tcp/8000"@,
        "/dns/2.node.ironverse.net/tcp/8000"@,
        "/dns/3.node.ironverse.net/tcp/8000"@,
        "/dns/4.node.ironverse.net/tcp/8000"@,
        "/dns/5.node.ironverse.net/tcp/8000"@,
    ]
}

/// The rendezvous addresses as fresh strings, in dialing order.
pub fn bootstrap_addresses() -> (r: Vec<String>)
    ensures
        r@.map_values(|s: String| s@) == spec_bootstrap_addresses(),
{
    let mut r: Vec<String> = Vec::new();
    r.push("/dns/1.node.ironverse.net/tcp/8000".to_owned());
    r.push("/dns/2.node.ironverse.net/tcp/8000".to_owned());
    r.push("/dns/3.node.ironverse.net/tcp/8000".to_owned());
    r.push("/dns/4.node.ironverse.net/tcp/8000".to_owned());
    r.push("/dns/5.node.ironverse.net/tcp/8000".to_owned());
    proof {
        assert(r@.map_values(|s: String| s@) =~= spec_bootstrap_addresses());
    }
    r
}

} // verus!
