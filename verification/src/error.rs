//! The faults that the transport core reports.
use crate::protocol::CodecError;
use vstd::prelude::*;

verus! {

/// How a connect, accept, stream open, read or write ended badly.
#[derive(Debug, Clone, Copy, PartialEq, Eq, Structural)]
pub enum TransportError {
    /// The peer closed the connection in good order.
    PeerClosed,
    /// Anything else: the connection or the stream broke.
    Aborted,
}

/// Why credential material could not be used.
#[derive(Debug, Clone, Copy, PartialEq, Eq, Structural)]
pub enum CredentialError {
    /// The file could not be read, or its PEM text is broken.
    Unreadable,
    /// The text holds no PEM section.
    Missing,
    /// The first PEM section is of another kind than the one asked for.
    WrongKind,
}

/// A fault of the transport core.
#[derive(Debug, Clone, Copy, PartialEq, Eq, Structural)]
pub enum Fault {
    Transport(TransportError),
    Codec(CodecError),
    Credential(CredentialError),
    /// A channel has no receiver left: the consumer has gone away.
    Channel,
}

} // verus!
