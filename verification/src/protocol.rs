//! The wire messages and the events that cross the event bridge.
use vstd::prelude::*;

verus! {

#[verifier::external_type_specification]
#[verifier::external_body]
#[verifier::reject_recursive_types(T)]
pub struct ExUnboundedSender<T>(tokio::sync::mpsc::UnboundedSender<T>);

#[verifier::external_type_specification]
#[verifier::external_body]
#[verifier::reject_recursive_types(T)]
pub struct ExUnboundedReceiver<T>(tokio::sync::mpsc::UnboundedReceiver<T>);

/// One lifecycle or payload event of one connection.
#[derive(Debug)]
pub struct Event {
    pub connection_id: usize,
    pub data: Data,
}

/// A piece of event data together with the connection it belongs to.
#[derive(Debug)]
pub struct Endpoint<T> {
    pub connection_id: usize,
    pub data: T,
}

/// What an event carries.
#[derive(Debug)]
pub enum Data {
    Connection(Connection),
    Payload(Payload),
}

/// A change in the life of a connection.
#[derive(Debug)]
pub enum Connection {
    Created(Created),
    Destroyed(Destroyed),
}

/// A connection was established; `sender` feeds its outbound queue.
#[derive(Debug)]
pub struct Created {
    pub sender: tokio::sync::mpsc::UnboundedSender<Payload>,
}

/// A connection has ended.
#[derive(Debug, Clone, Copy, PartialEq, Eq)]
pub struct Destroyed;

/// A versioned wire message.
#[derive(Debug, Clone, PartialEq, Eq)]
pub enum Payload {
    V1(Version1),
}

/// The messages of protocol version 1.
#[derive(Debug, Clone, PartialEq, Eq)]
pub enum Version1 {
    Ping,
    Pong,
    Spawn(Spawn),
    Spawned(Spawned),
    Despawn(Despawn),
    Despawned(Despawned),
}

/// The request to let an entity appear.
#[derive(Debug, Clone, Copy, PartialEq, Eq)]
pub struct Spawn;

/// An entity appeared at a position. The coordinates are carried as JSON
/// numbers, exactly as they stand on the wire.
#[derive(Debug, Clone, PartialEq, Eq)]
pub struct Spawned {
    pub id: String,
    pub x: serde_json::Number,
    pub y: serde_json::Number,
}

/// The request to let an entity disappear.
#[derive(Debug, Clone, Copy, PartialEq, Eq)]
pub struct Despawn;

/// An entity disappeared.
#[derive(Debug, Clone, PartialEq, Eq)]
pub struct Despawned {
    pub id: String,
}

/// The mathematical value of a version 1 message.
pub enum Message {
    Ping,
    Pong,
    Spawn,
    Spawned { id: Seq<char>, x: serde_json::Number, y: serde_json::Number },
    Despawn,
    Despawned { id: Seq<char> },
}

/// The mathematical value of a wire message.
pub enum Envelope {
    V1(Message),
}

impl View for Version1 {
    type V = Message;

    open spec fn view(&self) -> Message {
        match *self {
            Version1::Ping => Message::Ping,
            Version1::Pong => Message::Pong,
            Version1::Spawn(_) => Message::Spawn,
            Version1::Spawned(s) => Message::Spawned { id: s.id@, x: s.x, y: s.y },
            Version1::Despawn(_) => Message::Despawn,
            Version1::Despawned(d) => Message::Despawned { id: d.id@ },
        }
    }
}

impl View for Payload {
    type V = Envelope;

    open spec fn view(&self) -> Envelope {
        match *self {
            Payload::V1(message) => Envelope::V1(message@),
        }
    }
}

/// Why a byte sequence or a message was refused by the codec.
#[derive(Debug, Clone, Copy, PartialEq, Eq, Structural)]
pub enum CodecError {
    /// The bytes are no valid tagged envelope.
    Malformed,
    /// A stream carried more bytes than the read limit allows.
    Oversized,
    /// The message could not be written as text.
    Unwritable,
}

} // verus!
