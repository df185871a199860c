//! The lifecycle of one connection, as the consumer sees it.
//!
//! A session is the one door through which the events of a connection reach
//! the bridge. It announces the connection once, lets payload events through
//! while the connection lives, and announces the end once. It holds its own
//! sending handle on the bridge, so that what the bridge took from it is
//! known: every event is one of this connection, and their order is lawful.
use crate::bridge::Outlet;
use crate::error::Fault;
use crate::protocol::{Connection, Created, Data, Destroyed, Event, Payload};
use vstd::prelude::*;

verus! {

/// The kind of an event, as far as the order of events is concerned.
#[derive(Debug, Clone, Copy, PartialEq, Eq, Structural)]
pub enum Signal {
    Created,
    Payload,
    Destroyed,
}

/// The kind of an event.
pub open spec fn signal_of(event: Event) -> Signal {
    match event.data {
        Data::Connection(Connection::Created(_)) => Signal::Created,
        Data::Connection(Connection::Destroyed(_)) => Signal::Destroyed,
        Data::Payload(_) => Signal::Payload,
    }
}

/// A lawful order of the events of one connection: `Created` comes first and
/// only there, `Destroyed` comes last if it comes at all.
pub open spec fn well_ordered(log: Seq<Event>) -> bool {
    &&& log.len() > 0 ==> signal_of(log[0]) == Signal::Created
    &&& forall|i: int| 0 < i < log.len() ==> signal_of(#[trigger] log[i]) != Signal::Created
    &&& forall|i: int|
        0 <= i < log.len() - 1 ==> signal_of(#[trigger] log[i]) != Signal::Destroyed
}

/// Every event of `log` is one of the connection `connection_id`.
pub open spec fn of_connection(log: Seq<Event>, connection_id: usize) -> bool {
    forall|i: int| 0 <= i < log.len() ==> (#[trigger] log[i]).connection_id == connection_id
}

/// The event that announces the connection `connection_id`.
pub open spec fn created(
    connection_id: usize,
    sender: tokio::sync::mpsc::UnboundedSender<Payload>,
) -> Event {
    Event { connection_id, data: Data::Connection(Connection::Created(Created { sender })) }
}

/// The event that carries a decoded message of the connection
/// `connection_id`.
pub open spec fn carried(connection_id: usize, payload: Payload) -> Event {
    Event { connection_id, data: Data::Payload(payload) }
}

/// The event that announces the end of the connection `connection_id`.
pub open spec fn destroyed(connection_id: usize) -> Event {
    Event { connection_id, data: Data::Connection(Connection::Destroyed(Destroyed)) }
}

/// What became of a payload event that was handed to a session.
#[derive(Debug, Clone, Copy, PartialEq, Eq, Structural)]
pub enum Emit {
    /// It is on the bridge.
    Delivered,
    /// The session had ended; the event was dropped.
    Discarded,
    /// The bridge has no receiver left; the event was dropped.
    Undeliverable,
}

/// `tokio::sync::mpsc::unbounded_channel`: a fresh queue for the outbound
/// messages of one connection, as its sending and its receiving half.
#[verifier::external_body]
pub(crate) fn outbound_queue() -> (r: (
    tokio::sync::mpsc::UnboundedSender<Payload>,
    tokio::sync::mpsc::UnboundedReceiver<Payload>,
)) {
    tokio::sync::mpsc::unbounded_channel()
}

/// The event that announces a connection.
pub fn created_event(
    connection_id: usize,
    sender: tokio::sync::mpsc::UnboundedSender<Payload>,
) -> (r: Event)
    ensures
        r == created(connection_id, sender),
{
    Event { connection_id, data: Data::Connection(Connection::Created(Created { sender })) }
}

/// The event that carries a decoded message.
pub fn payload_event(connection_id: usize, payload: Payload) -> (r: Event)
    ensures
        r == carried(connection_id, payload),
{
    Event { connection_id, data: Data::Payload(payload) }
}

/// The event that announces the end of a connection.
pub fn destroyed_event(connection_id: usize) -> (r: Event)
    ensures
        r == destroyed(connection_id),
{
    Event { connection_id, data: Data::Connection(Connection::Destroyed(Destroyed)) }
}

/// What the delivery of a `Created` event means for the session that is to
/// begin: a session without a consumer does not begin, and the fault is
/// `Channel`.
pub fn opened(delivery: Result<(), Event>) -> (r: Result<(), Fault>)
    ensures
        r == match delivery {
            Ok(_) => Ok::<(), Fault>(()),
            Err(_) => Err::<(), Fault>(Fault::Channel),
        },
{
    match delivery {
        Ok(_) => Ok(()),
        Err(_) => Err(Fault::Channel),
    }
}

/// What became of a payload event that a running session handed to the
/// bridge.
pub fn emitted(delivery: Result<(), Event>) -> (r: Emit)
    ensures
        r == match delivery {
            Ok(_) => Emit::Delivered,
            Err(_) => Emit::Undeliverable,
        },
{
    match delivery {
        Ok(_) => Emit::Delivered,
        Err(_) => Emit::Undeliverable,
    }
}

/// The result of a session whose activities ended with `outcome` and whose
/// `Destroyed` event was handed to the bridge: the outcome of the
/// activities, unless the bridge refused the event; then it is `Channel`.
pub fn ended(delivery: Result<(), Event>, outcome: Result<(), Fault>) -> (r: Result<(), Fault>)
    ensures
        r == match delivery {
            Ok(_) => outcome,
            Err(_) => Err::<(), Fault>(Fault::Channel),
        },
{
    match delivery {
        Ok(_) => outcome,
        Err(_) => Err(Fault::Channel),
    }
}

/// What became of a payload event, as its request handler learns it from the
/// task that owns the session. A session that gives no answer is no longer
/// there: it has ended, and the event was dropped.
pub fn answered(answer: Option<Emit>) -> (r: Emit)
    ensures
        r == match answer {
            Some(emit) => emit,
            None => Emit::Discarded,
        },
{
    match answer {
        Some(emit) => emit,
        None => Emit::Discarded,
    }
}

/// The result of a request handler whose payload event was handed to its
/// session: a delivered event ends the handler well, and so does an event
/// that came after the session's end; an event that the bridge refused ends
/// it with `Channel`.
pub fn request_result(emit: Emit) -> (r: Result<(), Fault>)
    ensures
        r == match emit {
            Emit::Delivered => Ok::<(), Fault>(()),
            Emit::Discarded => Ok::<(), Fault>(()),
            Emit::Undeliverable => Err::<(), Fault>(Fault::Channel),
        },
{
    match emit {
        Emit::Delivered => Ok(()),
        Emit::Discarded => Ok(()),
        Emit::Undeliverable => Err(Fault::Channel),
    }
}

/// The one sender of a connection's events.
pub struct Session {
    connection_id: usize,
    running: bool,
    outlet: Outlet,
}

impl Session {
    #[verifier::type_invariant]
    spec fn lawful(&self) -> bool {
        &&& self.outlet.sent().len() > 0
        &&& well_ordered(self.outlet.sent())
        &&& of_connection(self.outlet.sent(), self.connection_id)
        &&& self.running ==> signal_of(self.outlet.sent().last()) != Signal::Destroyed
    }

    /// The identity of the connection.
    pub closed spec fn id(&self) -> usize {
        self.connection_id
    }

    /// Whether the connection still lives.
    pub closed spec fn running(&self) -> bool {
        self.running
    }

    /// The events that the bridge took from this session, in their order.
    pub closed spec fn log(&self) -> Seq<Event> {
        self.outlet.sent()
    }

    /// The identity of the connection.
    pub fn connection_id(&self) -> (r: usize)
        ensures
            r == self.id(),
    {
        self.connection_id
    }

    /// Whether the connection still lives. Whatever was done with the
    /// session, its events are events of its connection in a lawful order,
    /// and while it lives it has not announced its end.
    pub fn is_running(&self) -> (r: bool)
        ensures
            r == self.running(),
            self.log().len() > 0,
            well_ordered(self.log()),
            of_connection(self.log(), self.id()),
            r ==> signal_of(self.log().last()) != Signal::Destroyed,
    {
        proof {
            use_type_invariant(self);
        }
        self.running
    }

    /// Starts the session of a connection: makes the connection's outbound
    /// queue and announces the connection on the bridge, through `events`,
    /// with the queue's sending half. The `Created` event of this connection
    /// is then the one event that the bridge has from the session. Where the
    /// bridge has no receiver left there is no session, and the fault is
    /// `Channel`.
    pub fn begin(connection_id: usize, events: tokio::sync::mpsc::UnboundedSender<Event>) -> (r:
        Result<(Session, tokio::sync::mpsc::UnboundedReceiver<Payload>), Fault>)
        ensures
            match r {
                Ok((session, _)) => session.id() == connection_id && session.running()
                    && session.log().len() == 1 && session.log()[0].connection_id
                    == connection_id && signal_of(session.log()[0]) == Signal::Created,
                Err(fault) => fault == Fault::Channel,
            },
    {
        let (sender, receiver) = outbound_queue();
        let mut outlet = Outlet::new(events);
        let delivery = outlet.send(created_event(connection_id, sender));
        match opened(delivery) {
            Ok(_) => Ok((Session { connection_id, running: true, outlet }, receiver)),
            Err(fault) => Err(fault),
        }
    }

    /// Lets a decoded message through to the bridge, as the `Payload` event
    /// of this connection that carries it. A session that has ended lets
    /// nothing through. Nothing but that one event reaches the bridge, and it
    /// does so exactly where the result is `Delivered`.
    pub fn emit(&mut self, payload: Payload) -> (r: Emit)
        ensures
            final(self).id() == old(self).id(),
            final(self).running() == old(self).running(),
            well_ordered(final(self).log()),
            of_connection(final(self).log(), final(self).id()),
            !old(self).running() ==> r == Emit::Discarded,
            old(self).running() ==> r != Emit::Discarded,
            r == Emit::Delivered ==> final(self).log() == old(self).log().push(
                carried(old(self).id(), payload),
            ),
            r != Emit::Delivered ==> final(self).log() == old(self).log(),
    {
        proof {
            use_type_invariant(&*self);
        }
        if !self.running {
            return Emit::Discarded;
        }
        let delivery = self.outlet.send(payload_event(self.connection_id, payload));
        emitted(delivery)
    }

    /// Ends the session once the first of the connection's activities has
    /// finished with `outcome`: announces the end on the bridge, as the
    /// `Destroyed` event of this connection, whatever the outcome was, and
    /// then hands the outcome on. Where the bridge refuses the event the
    /// result is `Channel`. A session that had ended before announces nothing
    /// again.
    pub fn end(&mut self, outcome: Result<(), Fault>) -> (r: Result<(), Fault>)
        ensures
            final(self).id() == old(self).id(),
            !final(self).running(),
            well_ordered(final(self).log()),
            of_connection(final(self).log(), final(self).id()),
            !old(self).running() ==> r == outcome && final(self).log() == old(self).log(),
            old(self).running() ==> (r == outcome && final(self).log() == old(self).log().push(
                destroyed(old(self).id()),
            )) || (r == Err::<(), Fault>(Fault::Channel) && final(self).log() == old(self).log()),
    {
        proof {
            use_type_invariant(&*self);
        }
        if !self.running {
            return outcome;
        }
        self.running = false;
        let delivery = self.outlet.send(destroyed_event(self.connection_id));
        ended(delivery, outcome)
    }
}

/// In a lawful order nothing comes before `Created` and nothing after
/// `Destroyed`: of two events of one connection, the later one is not
/// `Created` and the earlier one is not `Destroyed`. So each of the two comes
/// at most once, and no payload event comes after `Destroyed`.
pub proof fn lifecycle_ordering(log: Seq<Event>, earlier: int, later: int)
    requires
        well_ordered(log),
        0 <= earlier < later < log.len(),
    ensures
        signal_of(log[later]) != Signal::Created,
        signal_of(log[earlier]) != Signal::Destroyed,
{
}

} // verus!
