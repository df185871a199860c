//! What a session decides about its streams.
//!
//! Opening, reading and writing streams waits on the network and is the
//! caller's part. This module holds what is decided in between: how much may
//! be read, what a request is answered with, when an acceptor stops, what the
//! keep-alive does next, and what is written for a queued message.
use crate::codec::{wire_decoded, wire_encoded};
use crate::error::{Fault, TransportError};
use crate::protocol::{CodecError, Envelope, Message, Payload, Version1};
use vstd::prelude::*;

verus! {

/// The largest number of bytes that one inbound stream may carry.
pub const READ_LIMIT: usize = 65536;

/// The seconds between two keep-alive requests.
pub const KEEP_ALIVE_SECONDS: u64 = 1;

/// The body of one inbound stream while it is read. It never holds more than
/// `READ_LIMIT` bytes.
pub struct RequestBody {
    bytes: Vec<u8>,
}

impl View for RequestBody {
    type V = Seq<u8>;

    closed spec fn view(&self) -> Seq<u8> {
        self.bytes@
    }
}

impl RequestBody {
    #[verifier::type_invariant]
    spec fn bounded(&self) -> bool {
        self.bytes@.len() <= READ_LIMIT
    }

    /// A body of which nothing was read yet.
    pub fn new() -> (r: RequestBody)
        ensures
            r@ == Seq::<u8>::empty(),
    {
        RequestBody { bytes: Vec::new() }
    }

    /// The number of bytes read so far; it is within the read limit.
    pub fn len(&self) -> (r: usize)
        ensures
            r == self@.len(),
            r <= READ_LIMIT,
    {
        proof {
            use_type_invariant(self);
        }
        self.bytes.len()
    }

    /// Takes in the next chunk of the stream. A chunk that would take the
    /// body over the read limit is refused with `Oversized`; with any other
    /// chunk the result is the body with the chunk appended.
    pub fn extend(self, chunk: &[u8]) -> (r: Result<RequestBody, Fault>)
        ensures
            self@.len() + chunk@.len() <= READ_LIMIT ==> r is Ok && r->Ok_0@ == self@ + chunk@,
            self@.len() + chunk@.len() > READ_LIMIT ==> r is Err && r->Err_0 == Fault::Codec(
                CodecError::Oversized,
            ),
    {
        proof {
            use_type_invariant(&self);
        }
        let mut bytes = self.bytes;
        if chunk.len() > READ_LIMIT - bytes.len() {
            return Err(Fault::Codec(CodecError::Oversized));
        }
        let ghost before = bytes@;
        bytes.extend_from_slice(chunk);
        assert(bytes@ =~= before + chunk@);
        Ok(RequestBody { bytes })
    }

    /// The bytes that were read.
    pub fn into_bytes(self) -> (r: Vec<u8>)
        ensures
            r@ == self@,
            r@.len() <= READ_LIMIT,
    {
        proof {
            use_type_invariant(&self);
        }
        self.bytes
    }
}

/// How an attempt to accept the next inbound stream ended.
#[derive(Debug, Clone, Copy, PartialEq, Eq, Structural)]
pub enum Accepted {
    /// The peer opened a stream.
    Stream,
    /// The peer closed the connection in good order.
    PeerClosed,
    /// The connection broke.
    Failed,
    /// No stream will come any more.
    Exhausted,
}

/// What an acceptor does after an attempt to accept.
#[derive(Debug, Clone, Copy, PartialEq, Eq, Structural)]
pub enum Acceptor {
    /// Hand the stream to a request handler of its own and accept the next.
    Serve,
    /// Stop accepting; the acceptor ends without a fault.
    Stop,
    /// Stop accepting; the acceptor ends with this fault.
    Fail(Fault),
}

/// What an acceptor does after an attempt to accept.
pub open spec fn acceptor_step(accepted: Accepted) -> Acceptor {
    match accepted {
        Accepted::Stream => Acceptor::Serve,
        Accepted::PeerClosed => Acceptor::Stop,
        Accepted::Failed => Acceptor::Fail(Fault::Transport(TransportError::Aborted)),
        Accepted::Exhausted => Acceptor::Stop,
    }
}

/// Decides what an acceptor of inbound streams does next. A stream is served
/// and the acceptor goes on; a peer that closed the connection in good order
/// ends the acceptor without a fault; a broken connection ends it with one.
/// How a request handler fares is no input here: no request can stop the
/// acceptor.
pub fn handle_incoming_streams(accepted: Accepted) -> (r: Acceptor)
    ensures
        r == acceptor_step(accepted),
{
    match accepted {
        Accepted::Stream => Acceptor::Serve,
        Accepted::PeerClosed => Acceptor::Stop,
        Accepted::Failed => Acceptor::Fail(Fault::Transport(TransportError::Aborted)),
        Accepted::Exhausted => Acceptor::Stop,
    }
}

/// The envelope that a request is answered with, if it is answered: `Ping`
/// is answered with `Pong`, and nothing else is answered.
pub open spec fn reply_to(request: Envelope) -> Option<Envelope> {
    match request {
        Envelope::V1(Message::Ping) => Some(Envelope::V1(Message::Pong)),
        _ => None,
    }
}

/// What the handler of one request on a bidirectional stream found: the
/// decoded request, and the bytes to write back before the stream is
/// finished, if the request is answered.
#[derive(Debug)]
pub struct Handled {
    pub payload: Payload,
    pub reply: Option<Vec<u8>>,
}

/// The reply to a decoded request, as a message.
pub fn reply_for(request: &Payload) -> (r: Option<Payload>)
    ensures
        match reply_to(request@) {
            Some(answer) => r is Some && r->Some_0@ == answer,
            None => r is None,
        },
{
    match request {
        Payload::V1(Version1::Ping) => Some(Payload::V1(Version1::Pong)),
        _ => None,
    }
}

/// What the body of one inbound stream stands for: a body over the read
/// limit is `Oversized` whatever it holds, a body within the limit that is no
/// envelope is `Malformed`, and any other body is its envelope.
pub open spec fn request_decoded(body: Seq<u8>) -> Result<Envelope, CodecError> {
    if body.len() > READ_LIMIT {
        Err(CodecError::Oversized)
    } else {
        match wire_decoded(body) {
            Some(envelope) => Ok(envelope),
            None => Err(CodecError::Malformed),
        }
    }
}

/// Decodes the body of one inbound stream. A body of more than `READ_LIMIT`
/// bytes is refused before it is looked at.
pub fn decode_request(body: &[u8]) -> (r: Result<Payload, Fault>)
    ensures
        match request_decoded(body@) {
            Ok(envelope) => r is Ok && r->Ok_0@ == envelope,
            Err(error) => r is Err && r->Err_0 == Fault::Codec(error),
        },
{
    if body.len() > READ_LIMIT {
        return Err(Fault::Codec(CodecError::Oversized));
    }
    match Payload::deserialize(body) {
        Ok(payload) => Ok(payload),
        Err(error) => Err(Fault::Codec(error)),
    }
}

/// What the handler of a bidirectional stream gives for a decoded request:
/// the request itself, to be emitted as a payload event whatever it is, and
/// the encoded reply where the request is answered. Only a reply that cannot
/// be written fails a decoded request.
pub open spec fn request_answered(request: Envelope) -> Result<
    (Envelope, Option<Seq<u8>>),
    CodecError,
> {
    match reply_to(request) {
        None => Ok((request, None)),
        Some(answer) => match wire_encoded(answer) {
            Some(bytes) => Ok((request, Some(bytes))),
            None => Err(CodecError::Unwritable),
        },
    }
}

/// What the handler of a bidirectional stream gives for a body.
pub open spec fn bi_request_handled(body: Seq<u8>) -> Result<
    (Envelope, Option<Seq<u8>>),
    CodecError,
> {
    match request_decoded(body) {
        Ok(request) => request_answered(request),
        Err(error) => Err(error),
    }
}

/// Handles the body of one request on a bidirectional stream. A body over
/// the read limit is `Oversized` and a body that is no envelope is
/// `Malformed`: then there is neither an event nor a reply. Otherwise the
/// result holds the decoded envelope, to be emitted as a payload event
/// whatever it is, and the encoded reply where the request is answered.
pub fn handle_incoming_bi_request(body: &[u8]) -> (r: Result<Handled, Fault>)
    ensures
        match bi_request_handled(body@) {
            Ok((request, None)) => r is Ok && r->Ok_0.payload@ == request && r->Ok_0.reply is None,
            Ok((request, Some(bytes))) => r is Ok && r->Ok_0.payload@ == request
                && r->Ok_0.reply is Some && r->Ok_0.reply->Some_0@ == bytes,
            Err(error) => r is Err && r->Err_0 == Fault::Codec(error),
        },
{
    let payload = match decode_request(body) {
        Ok(payload) => payload,
        Err(fault) => return Err(fault),
    };
    match reply_for(&payload) {
        None => Ok(Handled { payload, reply: None }),
        Some(answer) => match answer.serialize() {
            Ok(bytes) => Ok(Handled { payload, reply: Some(bytes) }),
            Err(error) => Err(Fault::Codec(error)),
        },
    }
}

/// Requests do not touch each other. Of three streams that a peer opens at
/// once, let the second carry a body that is refused and the other two carry
/// envelopes. Then the acceptor serves every one of them, the second gives
/// neither an event nor a reply, and each of the other two is handled as its
/// own envelope alone asks: a `Ping` among them is answered with the encoded
/// `Pong`.
pub proof fn refused_request_leaves_the_others(
    first: Seq<u8>,
    second: Seq<u8>,
    third: Seq<u8>,
    one: Envelope,
    three: Envelope,
)
    requires
        request_decoded(first) == Ok::<Envelope, CodecError>(one),
        request_decoded(second) is Err,
        request_decoded(third) == Ok::<Envelope, CodecError>(three),
    ensures
        acceptor_step(Accepted::Stream) == Acceptor::Serve,
        bi_request_handled(second) is Err,
        bi_request_handled(first) == request_answered(one),
        bi_request_handled(third) == request_answered(three),
        one == Envelope::V1(Message::Ping) ==> request_answered(one) == match wire_encoded(
            Envelope::V1(Message::Pong),
        ) {
            Some(bytes) => Ok::<(Envelope, Option<Seq<u8>>), CodecError>((one, Some(bytes))),
            None => Err::<(Envelope, Option<Seq<u8>>), CodecError>(CodecError::Unwritable),
        },
{
}

/// Handles the body of one unidirectional stream: decodes the envelope that
/// is to be emitted as a payload event. A body over the read limit is
/// `Oversized` and a body that is no envelope is `Malformed`: then there is
/// no event.
pub fn handle_incoming_uni_request(body: &[u8]) -> (r: Result<Payload, Fault>)
    ensures
        match request_decoded(body@) {
            Ok(envelope) => r is Ok && r->Ok_0@ == envelope,
            Err(error) => r is Err && r->Err_0 == Fault::Codec(error),
        },
{
    decode_request(body)
}

/// One step of the keep-alive cycle.
#[derive(Debug, Clone, Copy, PartialEq, Eq, Structural)]
pub enum Beat {
    /// Open a bidirectional stream.
    Open,
    /// Write the request.
    Write,
    /// Finish the write side.
    Finish,
    /// Read the reply.
    Read,
    /// Sleep for `KEEP_ALIVE_SECONDS`.
    Sleep,
}

/// The step that follows `beat` in the keep-alive cycle.
pub open spec fn next_beat(beat: Beat) -> Beat {
    match beat {
        Beat::Open => Beat::Write,
        Beat::Write => Beat::Finish,
        Beat::Finish => Beat::Read,
        Beat::Read => Beat::Sleep,
        Beat::Sleep => Beat::Open,
    }
}

/// Decides what the keep-alive does after the step `done` ended with
/// `outcome`. A step that succeeded is followed by the next step of the
/// cycle, without end; a step that failed ends the keep-alive with its fault,
/// which is the connection's failure signal. The fault of a read is that of
/// `keep_alive_reply`: a reply over the read limit ends the keep-alive as a
/// broken stream does.
pub fn handle_outgoing_keep_alive(done: Beat, outcome: Result<(), Fault>) -> (r: Result<
    Beat,
    Fault,
>)
    ensures
        r == match outcome {
            Ok(_) => Ok::<Beat, Fault>(next_beat(done)),
            Err(fault) => Err::<Beat, Fault>(fault),
        },
{
    match outcome {
        Ok(_) => Ok(
            match done {
                Beat::Open => Beat::Write,
                Beat::Write => Beat::Finish,
                Beat::Finish => Beat::Read,
                Beat::Read => Beat::Sleep,
                Beat::Sleep => Beat::Open,
            },
        ),
        Err(fault) => Err(fault),
    }
}

/// The bytes of a keep-alive request: an encoded `Ping`.
pub fn keep_alive_request() -> (r: Result<Vec<u8>, Fault>)
    ensures
        match wire_encoded(Envelope::V1(Message::Ping)) {
            Some(bytes) => r is Ok && r->Ok_0@ == bytes,
            None => r is Err && r->Err_0 == Fault::Codec(CodecError::Unwritable),
        },
{
    match Payload::V1(Version1::Ping).serialize() {
        Ok(bytes) => Ok(bytes),
        Err(error) => Err(Fault::Codec(error)),
    }
}

/// What the reply to a keep-alive request turned out to be.
#[derive(Debug, Clone, Copy, PartialEq, Eq, Structural)]
pub enum Probe {
    /// The expected `Pong`.
    Pong,
    /// An envelope, but another one.
    Unexpected,
    /// No envelope at all.
    Undecodable,
}

/// What a reply with these bytes turns out to be.
pub open spec fn probed(reply: Seq<u8>) -> Probe {
    match wire_decoded(reply) {
        Some(Envelope::V1(Message::Pong)) => Probe::Pong,
        Some(_) => Probe::Unexpected,
        None => Probe::Undecodable,
    }
}

/// What the read of a keep-alive reply amounts to. A read that failed hands
/// its fault on, and a reply over the read limit is `Oversized`: both end the
/// keep-alive. A reply within the limit is a probe only: whatever it holds,
/// the keep-alive goes on.
pub open spec fn reply_probed(read: Result<Vec<u8>, Fault>) -> Result<Probe, Fault> {
    match read {
        Err(fault) => Err(fault),
        Ok(reply) => if reply@.len() > READ_LIMIT {
            Err(Fault::Codec(CodecError::Oversized))
        } else {
            Ok(probed(reply@))
        },
    }
}

/// Looks at what the read of a keep-alive reply gave.
pub fn keep_alive_reply(read: Result<Vec<u8>, Fault>) -> (r: Result<Probe, Fault>)
    ensures
        r == reply_probed(read),
{
    let reply = match read {
        Ok(reply) => reply,
        Err(fault) => return Err(fault),
    };
    if reply.len() > READ_LIMIT {
        return Err(Fault::Codec(CodecError::Oversized));
    }
    match Payload::deserialize(reply.as_slice()) {
        Ok(Payload::V1(Version1::Pong)) => Ok(Probe::Pong),
        Ok(_) => Ok(Probe::Unexpected),
        Err(_) => Ok(Probe::Undecodable),
    }
}

/// Decides what the outbound writer does with what it took from the
/// connection's outbound queue. A message is to be written, encoded, on a
/// fresh unidirectional stream; a queue whose senders are all gone ends the
/// writer without a fault.
pub fn handle_outgoing_stream(next: Option<&Payload>) -> (r: Result<Option<Vec<u8>>, Fault>)
    ensures
        match next {
            None => r is Ok && r->Ok_0 is None,
            Some(payload) => match wire_encoded(payload@) {
                Some(bytes) => r is Ok && r->Ok_0 is Some && r->Ok_0->Some_0@ == bytes,
                None => r is Err && r->Err_0 == Fault::Codec(CodecError::Unwritable),
            },
        },
{
    match next {
        None => Ok(None),
        Some(payload) => match payload.serialize() {
            Ok(bytes) => Ok(Some(bytes)),
            Err(error) => Err(Fault::Codec(error)),
        },
    }
}

} // verus!
