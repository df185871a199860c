//! The event bridge: the channel that carries the events of every connection
//! to one consumer, and the consumer's side of it.
//!
//! The channel is `tokio`'s unbounded channel. What comes out of it depends on
//! what other tasks have put in, so nothing is claimed of a single receive;
//! what is done with an event once it is there is proved. On the sending side
//! an `Outlet` keeps, as ghost state, what the bridge took from one handle.
use crate::protocol::{
    Connection, Created, Data, Despawn, Despawned, Destroyed, Endpoint, Event, Payload, Spawn,
    Spawned, Version1,
};
use vstd::prelude::*;

verus! {

/// Why a receive handed out no event.
#[derive(Debug, Clone, Copy, PartialEq, Eq, Structural)]
pub enum Idle {
    /// Nothing is queued, but a sender is still there.
    Empty,
    /// Nothing is queued and every sender is gone.
    Disconnected,
}

/// What one poll of the bridge found.
#[derive(Debug)]
pub enum Received {
    Event(Event),
    Empty,
    Disconnected,
}

/// `UnboundedSender::send`: queues `event`. It fails where the receiver is
/// closed or dropped, and then hands the event back. It does not panic.
#[verifier::external_body]
fn send_event(
    events: &tokio::sync::mpsc::UnboundedSender<Event>,
    event: Event,
) -> (r: Result<(), Event>)
    ensures
        r matches Err(back) ==> back == event,
    no_unwind
{
    events.send(event).map_err(|error| error.0)
}

/// One task's sending handle on the bridge, together with the events that
/// the bridge took from it, in their order.
pub struct Outlet {
    sender: tokio::sync::mpsc::UnboundedSender<Event>,
    sent: Ghost<Seq<Event>>,
}

impl Outlet {
    /// The events that the bridge took from this handle, in their order.
    pub closed spec fn sent(&self) -> Seq<Event> {
        self.sent@
    }

    /// A handle from which the bridge has taken nothing yet.
    pub fn new(sender: tokio::sync::mpsc::UnboundedSender<Event>) -> (r: Outlet)
        ensures
            r.sent() == Seq::<Event>::empty(),
    {
        let sent: Ghost<Seq<Event>> = Ghost(Seq::empty());
        Outlet { sender, sent }
    }

    /// Hands `event` to the bridge. An event that the bridge takes is the
    /// next of this handle's events; an event that it refuses, because it has
    /// no receiver left, comes back.
    pub fn send(&mut self, event: Event) -> (r: Result<(), Event>)
        ensures
            match r {
                Ok(_) => final(self).sent() == old(self).sent().push(event),
                Err(back) => back == event && final(self).sent() == old(self).sent(),
            },
        no_unwind
    {
        let delivery = send_event(&self.sender, event);
        proof {
            if delivery is Ok {
                self.sent@ = self.sent@.push(event);
            }
        }
        delivery
    }
}

/// `UnboundedReceiver::try_recv`: takes the next queued event without
/// waiting. Which event that is, and whether there is one, depends on the
/// senders.
#[verifier::external_body]
pub(crate) fn try_recv_event(receiver: &mut tokio::sync::mpsc::UnboundedReceiver<Event>) -> (r:
    Result<Event, Idle>) {
    match receiver.try_recv() {
        Ok(event) => Ok(event),
        Err(tokio::sync::mpsc::error::TryRecvError::Empty) => Err(Idle::Empty),
        Err(tokio::sync::mpsc::error::TryRecvError::Disconnected) => Err(Idle::Disconnected),
    }
}

/// What a receive amounts to for the consumer.
pub open spec fn received(outcome: Result<Event, Idle>) -> Received {
    match outcome {
        Ok(event) => Received::Event(event),
        Err(Idle::Empty) => Received::Empty,
        Err(Idle::Disconnected) => Received::Disconnected,
    }
}

/// Turns the outcome of a receive into what the consumer sees.
pub fn receive_outcome(outcome: Result<Event, Idle>) -> (r: Received)
    ensures
        r == received(outcome),
{
    match outcome {
        Ok(event) => Received::Event(event),
        Err(Idle::Empty) => Received::Empty,
        Err(Idle::Disconnected) => Received::Disconnected,
    }
}

/// Polls the bridge once, without blocking.
pub fn try_receive_event(receiver: &mut tokio::sync::mpsc::UnboundedReceiver<Event>) -> (r:
    Received) {
    receive_outcome(try_recv_event(receiver))
}

/// The events of a consumer, sorted by what they carry.
#[derive(Debug)]
pub struct Inbox {
    pub created: Vec<Endpoint<Created>>,
    pub destroyed: Vec<Endpoint<Destroyed>>,
    pub spawn: Vec<Endpoint<Spawn>>,
    pub spawned: Vec<Endpoint<Spawned>>,
    pub despawn: Vec<Endpoint<Despawn>>,
    pub despawned: Vec<Endpoint<Despawned>>,
}

/// The mathematical value of an inbox: one sequence for each kind of event.
pub struct Queues {
    pub created: Seq<Endpoint<Created>>,
    pub destroyed: Seq<Endpoint<Destroyed>>,
    pub spawn: Seq<Endpoint<Spawn>>,
    pub spawned: Seq<Endpoint<Spawned>>,
    pub despawn: Seq<Endpoint<Despawn>>,
    pub despawned: Seq<Endpoint<Despawned>>,
}

impl View for Inbox {
    type V = Queues;

    open spec fn view(&self) -> Queues {
        Queues {
            created: self.created@,
            destroyed: self.destroyed@,
            spawn: self.spawn@,
            spawned: self.spawned@,
            despawn: self.despawn@,
            despawned: self.despawned@,
        }
    }
}

/// The queues after `event` was sorted in: the event's data comes last in the
/// queue of its kind, under the event's connection. `Ping` and `Pong` are
/// answered by the session and reach no queue.
pub open spec fn routed(queues: Queues, event: Event) -> Queues {
    let id = event.connection_id;
    match event.data {
        Data::Connection(Connection::Created(data)) => Queues {
            created: queues.created.push(Endpoint { connection_id: id, data }),
            ..queues
        },
        Data::Connection(Connection::Destroyed(data)) => Queues {
            destroyed: queues.destroyed.push(Endpoint { connection_id: id, data }),
            ..queues
        },
        Data::Payload(Payload::V1(Version1::Ping)) => queues,
        Data::Payload(Payload::V1(Version1::Pong)) => queues,
        Data::Payload(Payload::V1(Version1::Spawn(data))) => Queues {
            spawn: queues.spawn.push(Endpoint { connection_id: id, data }),
            ..queues
        },
        Data::Payload(Payload::V1(Version1::Spawned(data))) => Queues {
            spawned: queues.spawned.push(Endpoint { connection_id: id, data }),
            ..queues
        },
        Data::Payload(Payload::V1(Version1::Despawn(data))) => Queues {
            despawn: queues.despawn.push(Endpoint { connection_id: id, data }),
            ..queues
        },
        Data::Payload(Payload::V1(Version1::Despawned(data))) => Queues {
            despawned: queues.despawned.push(Endpoint { connection_id: id, data }),
            ..queues
        },
    }
}

/// The queues after a poll with the given outcome.
pub open spec fn multiplexed(queues: Queues, outcome: Result<Event, Idle>) -> Queues {
    match outcome {
        Ok(event) => routed(queues, event),
        Err(_) => queues,
    }
}

impl Inbox {
    /// An inbox with nothing in it.
    pub fn new() -> (r: Inbox)
        ensures
            r@.created.len() == 0,
            r@.destroyed.len() == 0,
            r@.spawn.len() == 0,
            r@.spawned.len() == 0,
            r@.despawn.len() == 0,
            r@.despawned.len() == 0,
    {
        Inbox {
            created: Vec::new(),
            destroyed: Vec::new(),
            spawn: Vec::new(),
            spawned: Vec::new(),
            despawn: Vec::new(),
            despawned: Vec::new(),
        }
    }

    /// Sorts one event into the queue of its kind.
    pub fn route(&mut self, event: Event)
        ensures
            final(self)@ == routed(old(self)@, event),
    {
        let id = event.connection_id;
        match event.data {
            Data::Connection(Connection::Created(data)) => {
                self.created.push(Endpoint { connection_id: id, data });
            },
            Data::Connection(Connection::Destroyed(data)) => {
                self.destroyed.push(Endpoint { connection_id: id, data });
            },
            Data::Payload(Payload::V1(Version1::Ping)) => {},
            Data::Payload(Payload::V1(Version1::Pong)) => {},
            Data::Payload(Payload::V1(Version1::Spawn(data))) => {
                self.spawn.push(Endpoint { connection_id: id, data });
            },
            Data::Payload(Payload::V1(Version1::Spawned(data))) => {
                self.spawned.push(Endpoint { connection_id: id, data });
            },
            Data::Payload(Payload::V1(Version1::Despawn(data))) => {
                self.despawn.push(Endpoint { connection_id: id, data });
            },
            Data::Payload(Payload::V1(Version1::Despawned(data))) => {
                self.despawned.push(Endpoint { connection_id: id, data });
            },
        }
    }

    /// Takes in the outcome of one poll: an event is sorted in, and an idle
    /// bridge leaves the inbox as it is.
    pub fn take(&mut self, outcome: Result<Event, Idle>) -> (r: Option<Idle>)
        ensures
            final(self)@ == multiplexed(old(self)@, outcome),
            r == match outcome {
                Ok(_) => None,
                Err(idle) => Some(idle),
            },
    {
        match outcome {
            Ok(event) => {
                self.route(event);
                None
            },
            Err(idle) => Some(idle),
        }
    }
}

/// Polls the bridge once and sorts what came into `inbox`. Whatever the
/// bridge held, the inbox is either unchanged, and the result says why, or
/// one event longer.
pub fn multiplex(
    receiver: &mut tokio::sync::mpsc::UnboundedReceiver<Event>,
    inbox: &mut Inbox,
) -> (r: Option<Idle>)
    ensures
        exists|outcome: Result<Event, Idle>|
            final(inbox)@ == multiplexed(old(inbox)@, outcome) && r == match outcome {
                Ok(_) => None,
                Err(idle) => Some(idle),
            },
{
    let outcome = try_recv_event(receiver);
    inbox.take(outcome)
}

/// What one poll means for the events that are moved on: an event comes last
/// in `writer` and the run goes on; an idle bridge leaves `writer` as it is
/// and ends the run, and the result says why the bridge was idle.
pub fn forward_step(writer: &mut Vec<Event>, outcome: Result<Event, Idle>) -> (r: Option<Idle>)
    ensures
        match outcome {
            Ok(event) => final(writer)@ == old(writer)@.push(event) && r is None,
            Err(idle) => final(writer)@ == old(writer)@ && r == Some(idle),
        },
{
    match outcome {
        Ok(event) => {
            writer.push(event);
            None
        },
        Err(idle) => Some(idle),
    }
}

/// Moves events from the bridge to the end of `writer` until the bridge is
/// idle or `limit` events were moved. The bridge is polled once for each
/// event, and `forward_step` takes in what each poll gave: so the events come
/// in the order in which the bridge hands them out, and an idle bridge ends
/// the run with its reason. Events that were in `writer` stay where they are.
/// The result is `None` exactly where the limit ended the run, that is where
/// `limit` events were moved; with a limit of zero the bridge is not polled
/// at all.
pub fn forward(
    receiver: &mut tokio::sync::mpsc::UnboundedReceiver<Event>,
    writer: &mut Vec<Event>,
    limit: usize,
) -> (r: Option<Idle>)
    ensures
        old(writer)@.is_prefix_of(final(writer)@),
        final(writer)@.len() <= old(writer)@.len() + limit,
        r is None <==> final(writer)@.len() == old(writer)@.len() + limit,
{
    let mut moved: usize = 0;
    while moved < limit
        invariant
            moved <= limit,
            old(writer)@.is_prefix_of(writer@),
            writer@.len() == old(writer)@.len() + moved,
        decreases limit - moved,
    {
        let outcome = try_recv_event(receiver);
        match forward_step(writer, outcome) {
            None => {
                moved = moved + 1;
            },
            Some(idle) => {
                return Some(idle);
            },
        }
    }
    None
}

} // verus!
