//! Broadcast event bus: one shared sending side, many independent
//! subscribers, best-effort delivery. The channel itself is
//! `tokio::sync::broadcast`; the library tracks alongside it a ghost log of
//! the events accepted for delivery and, per subscriber, the window of that
//! log the subscriber can observe. A subscriber's window starts at the log
//! length at subscription time and only ever moves forward, so events
//! published before the subscription are never delivered to it; a slow
//! subscriber may skip events (`Lagged`) but never moves backwards.

use vstd::prelude::*;

verus! {

/// Marker for types that may ride the event bus: cloneable (each subscriber
/// gets its own copy) and shareable across the runtime's tasks.
pub trait SystemEvent: Clone + Send + Sync + 'static {

}

#[verifier::external_type_specification]
#[verifier::external_body]
#[verifier::reject_recursive_types(T)]
pub struct ExBroadcastSender<T>(tokio::sync::broadcast::Sender<T>);

#[verifier::external_type_specification]
#[verifier::external_body]
#[verifier::reject_recursive_types(T)]
pub struct ExBroadcastReceiver<T>(tokio::sync::broadcast::Receiver<T>);

/// The bus: the broadcast sending side plus the ghost log of events that
/// were accepted for delivery (an event published while no subscriber is
/// live is dropped by the channel and does not enter the log).
#[verifier::reject_recursive_types(E)]
pub struct EventBus<E: SystemEvent> {
    sender: tokio::sync::broadcast::Sender<E>,
    log: Ghost<Seq<E>>,
}

/// One subscriber's receiving side. `start` is the length of the bus log at
/// subscription time — the lower bound of everything this subscriber can
/// ever observe; `pos` is the log position of its next delivery.
#[verifier::reject_recursive_types(E)]
pub struct EventConsumer<E: SystemEvent> {
    receiver: tokio::sync::broadcast::Receiver<E>,
    start: Ghost<nat>,
    pos: Ghost<nat>,
}

/// What one non-blocking receive attempt yielded.
#[derive(Debug, PartialEq)]
pub enum RecvOutcome<E> {
    /// The next event in this subscriber's window.
    Event(E),
    /// Nothing pending; the sending side is still live.
    Empty,
    /// The sending side is gone and everything pending was drained.
    Closed,
    /// The subscriber fell behind and this many events were overwritten
    /// before it could read them; its position has jumped forward past
    /// them.
    Lagged(u64),
}

/// Relies on tokio::sync::broadcast::channel: builds a channel with room
/// for `capacity` pending events per subscriber; panics when the capacity
/// is zero or larger than `usize::MAX / 2`.
#[verifier::external_body]
fn broadcast_new<E: SystemEvent>(capacity: usize) -> tokio::sync::broadcast::Sender<E>
    requires
        1 <= capacity <= usize::MAX / 2,
{
    let (sender, _) = tokio::sync::broadcast::channel(capacity);
    sender
}

/// Relies on tokio::sync::broadcast::Sender::send: it hands the value to
/// every currently subscribed receiver's buffer without waiting on any of
/// them and returns their count (necessarily at least one), or gives the
/// value back unchanged as the error when no receiver is live.
#[verifier::external_body]
fn broadcast_send<E: SystemEvent>(sender: &tokio::sync::broadcast::Sender<E>, event: E) -> (r:
    Result<usize, E>)
    ensures
        r matches Ok(n) ==> n >= 1,
        r matches Err(e) ==> e == event,
{
    match sender.send(event) {
        Ok(n) => Ok(n),
        Err(tokio::sync::broadcast::error::SendError(e)) => Err(e),
    }
}

/// Relies on tokio::sync::broadcast::Sender::subscribe: the new receiver's
/// read position starts at the channel's current write position, so values
/// sent before this call are out of its reach for good.
#[verifier::external_body]
fn broadcast_subscribe<E: SystemEvent>(
    sender: &tokio::sync::broadcast::Sender<E>,
) -> tokio::sync::broadcast::Receiver<E> {
    sender.subscribe()
}

/// Relies on tokio::sync::broadcast::Receiver::try_recv: it yields the
/// value at the receiver's read position and advances that position by one;
/// when the receiver has lagged, it reports how many values were missed
/// (at least one) and advances the position past them.
#[verifier::external_body]
fn broadcast_try_recv<E: SystemEvent>(receiver: &mut tokio::sync::broadcast::Receiver<E>) -> (r:
    RecvOutcome<E>)
    ensures
        r matches RecvOutcome::Lagged(n) ==> n >= 1,
{
    match receiver.try_recv() {
        Ok(e) => RecvOutcome::Event(e),
        Err(tokio::sync::broadcast::error::TryRecvError::Empty) => RecvOutcome::Empty,
        Err(tokio::sync::broadcast::error::TryRecvError::Closed) => RecvOutcome::Closed,
        Err(tokio::sync::broadcast::error::TryRecvError::Lagged(n)) => RecvOutcome::Lagged(n),
    }
}

impl<E: SystemEvent> EventBus<E> {
    /// Events accepted for delivery so far, oldest first.
    pub closed spec fn log(&self) -> Seq<E> {
        self.log@
    }

    /// Builds a bus whose ring buffer holds up to `capacity` pending
    /// events per subscriber before a slow subscriber starts to lag.
    pub fn new(capacity: usize) -> (r: EventBus<E>)
        requires
            1 <= capacity <= usize::MAX / 2,
        ensures
            r.log() == Seq::<E>::empty(),
    {
        EventBus { sender: broadcast_new(capacity), log: Ghost(Seq::empty()) }
    }

    /// Hands the event to every live subscriber and reports how many there
    /// were; with no live subscriber the event is dropped and handed back
    /// unchanged. Never waits on any subscriber.
    pub fn send(&mut self, event: E) -> (r: Result<usize, E>)
        ensures
            r matches Ok(n) ==> final(self).log() == old(self).log().push(event) && n >= 1,
            r matches Err(e) ==> final(self).log() == old(self).log() && e == event,
    {
        let ghost ev = event;
        match broadcast_send(&self.sender, event) {
            Ok(n) => {
                proof {
                    self.log@ = self.log@.push(ev);
                }
                Ok(n)
            },
            Err(e) => Err(e),
        }
    }

    /// Opens an independent subscription whose delivery window starts now:
    /// it can only ever observe events accepted after this call.
    pub fn subscribe(&self) -> (c: EventConsumer<E>)
        ensures
            c.start() == self.log().len(),
            c.pos() == c.start(),
            c.wf(),
    {
        EventConsumer {
            receiver: broadcast_subscribe(&self.sender),
            start: Ghost(self.log@.len()),
            pos: Ghost(self.log@.len()),
        }
    }
}

impl<E: SystemEvent> EventConsumer<E> {
    /// Log length at subscription time: the fixed lower bound of this
    /// subscriber's window.
    pub closed spec fn start(&self) -> nat {
        self.start@
    }

    /// Log position of the next delivery.
    pub closed spec fn pos(&self) -> nat {
        self.pos@
    }

    /// The delivery position never precedes the subscription point.
    pub open spec fn wf(&self) -> bool {
        self.pos() >= self.start()
    }

    /// One non-blocking receive attempt. A delivered event is the one at
    /// this subscriber's current position, and the position advances past
    /// it; lagging only ever jumps the position forward; the subscription
    /// point never moves.
    pub fn try_recv(&mut self) -> (r: RecvOutcome<E>)
        ensures
            final(self).start() == old(self).start(),
            old(self).wf() ==> final(self).wf(),
            r matches RecvOutcome::Event(_) ==> final(self).pos() == old(self).pos() + 1,
            r matches RecvOutcome::Lagged(_) ==> final(self).pos() > old(self).pos(),
            (r matches RecvOutcome::Empty || r matches RecvOutcome::Closed) ==> final(self).pos()
                == old(self).pos(),
    {
        let out = broadcast_try_recv(&mut self.receiver);
        match &out {
            RecvOutcome::Event(_) => {
                proof {
                    self.pos@ = self.pos@ + 1;
                }
            },
            RecvOutcome::Lagged(n) => {
                proof {
                    self.pos@ = self.pos@ + *n as nat;
                }
            },
            _ => {},
        }
        out
    }

    /// Gives up the ghost window model and hands out the raw broadcast
    /// receiver, for an embedding that wants to await deliveries instead
    /// of polling.
    pub fn into_receiver(self) -> tokio::sync::broadcast::Receiver<E> {
        self.receiver
    }
}

/// Subscription-window law: a subscriber's next-delivery position starts at
/// the subscription point and, by `try_recv`'s contract, only ever grows,
/// so every event it is ever handed sits at a log position at or past the
/// point where it subscribed — none of the events published before it
/// subscribed is among them.
pub proof fn lemma_subscriber_window<E: SystemEvent>(c: EventConsumer<E>, k: nat)
    requires
        c.wf(),
        k < c.start(),
    ensures
        c.pos() != k,
{
}

} // verus!
