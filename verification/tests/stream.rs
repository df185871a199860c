use quic_bridge::error::{Fault, TransportError};
use quic_bridge::protocol::{CodecError, Despawned, Payload, Spawn, Version1};
use quic_bridge::stream::{
    decode_request, handle_incoming_bi_request, handle_incoming_streams, handle_incoming_uni_request,
    handle_outgoing_keep_alive, handle_outgoing_stream, keep_alive_reply, keep_alive_request,
    reply_for, Accepted, Acceptor, Beat, Probe, RequestBody, KEEP_ALIVE_SECONDS, READ_LIMIT,
};

const PING: &[u8] = b"{\"version\":\"1\",\"payload\":{\"type\":\"ping\"}}";
const PONG: &[u8] = b"{\"version\":\"1\",\"payload\":{\"type\":\"pong\"}}";

#[test]
fn read_limit_is_64_kib() {
    assert_eq!(READ_LIMIT, 64 * 1024);
    assert_eq!(KEEP_ALIVE_SECONDS, 1);
}

#[test]
fn body_takes_chunks_up_to_the_limit() {
    let body = RequestBody::new();
    assert_eq!(body.len(), 0);
    let body = body.extend(b"abc").unwrap();
    let body = body.extend(b"").unwrap();
    let body = body.extend(b"de").unwrap();
    assert_eq!(body.len(), 5);
    assert_eq!(body.into_bytes(), b"abcde".to_vec());
}

#[test]
fn body_of_exactly_the_limit_is_taken() {
    let chunk = vec![7u8; READ_LIMIT];
    let body = RequestBody::new().extend(&chunk).unwrap();
    assert_eq!(body.len(), READ_LIMIT);
    assert_eq!(body.into_bytes(), chunk);
}

#[test]
fn body_over_the_limit_is_refused() {
    let chunk = vec![7u8; READ_LIMIT + 1];
    assert_eq!(
        RequestBody::new().extend(&chunk).err(),
        Some(Fault::Codec(CodecError::Oversized))
    );
    let body = RequestBody::new().extend(&chunk[..READ_LIMIT]).unwrap();
    assert_eq!(body.extend(&[1]).err(), Some(Fault::Codec(CodecError::Oversized)));
    let mut body = RequestBody::new();
    for _ in 0..64 {
        body = body.extend(&chunk[..1024]).unwrap();
    }
    assert_eq!(body.len(), READ_LIMIT);
    assert!(body.extend(&chunk[..1]).is_err());
}

#[test]
fn ping_request_is_answered_with_pong() {
    let handled = handle_incoming_bi_request(PING).unwrap();
    assert_eq!(handled.payload, Payload::V1(Version1::Ping));
    assert_eq!(handled.reply, Some(PONG.to_vec()));
}

#[test]
fn other_requests_are_not_answered() {
    let handled = handle_incoming_bi_request(PONG).unwrap();
    assert_eq!(handled.payload, Payload::V1(Version1::Pong));
    assert_eq!(handled.reply, None);
    let spawn = Payload::V1(Version1::Spawn(Spawn));
    let handled = handle_incoming_bi_request(&spawn.serialize().unwrap()).unwrap();
    assert_eq!(handled.payload, spawn);
    assert_eq!(handled.reply, None);
    assert_eq!(reply_for(&spawn), None);
    assert_eq!(reply_for(&Payload::V1(Version1::Ping)), Some(Payload::V1(Version1::Pong)));
}

#[test]
fn malformed_request_is_a_codec_fault() {
    assert_eq!(
        handle_incoming_bi_request(b"{\"version\":\"1\"").err(),
        Some(Fault::Codec(CodecError::Malformed))
    );
    assert_eq!(
        handle_incoming_uni_request(b"not json").err(),
        Some(Fault::Codec(CodecError::Malformed))
    );
}

#[test]
fn unidirectional_request_is_decoded() {
    let despawned = Payload::V1(Version1::Despawned(Despawned { id: "e".to_owned() }));
    assert_eq!(
        handle_incoming_uni_request(&despawned.serialize().unwrap()),
        Ok(despawned)
    );
    assert_eq!(handle_incoming_uni_request(PING), Ok(Payload::V1(Version1::Ping)));
}

#[test]
fn a_failing_request_leaves_the_others_alone() {
    let bodies: Vec<&[u8]> = vec![PING, b"{\"version\":\"9\",\"payload\":{}}", PING];
    let results: Vec<bool> =
        bodies.iter().map(|body| handle_incoming_bi_request(body).is_ok()).collect();
    assert_eq!(results, vec![true, false, true]);
    assert_eq!(handle_incoming_streams(Accepted::Stream), Acceptor::Serve);
}

#[test]
fn acceptor_stops_only_with_the_connection() {
    assert_eq!(handle_incoming_streams(Accepted::Stream), Acceptor::Serve);
    assert_eq!(handle_incoming_streams(Accepted::PeerClosed), Acceptor::Stop);
    assert_eq!(handle_incoming_streams(Accepted::Exhausted), Acceptor::Stop);
    assert_eq!(
        handle_incoming_streams(Accepted::Failed),
        Acceptor::Fail(Fault::Transport(TransportError::Aborted))
    );
}

#[test]
fn keep_alive_cycles_while_all_goes_well() {
    let mut beat = Beat::Open;
    let mut seen = Vec::new();
    for _ in 0..11 {
        seen.push(beat);
        beat = handle_outgoing_keep_alive(beat, Ok(())).unwrap();
    }
    assert_eq!(
        seen,
        vec![
            Beat::Open,
            Beat::Write,
            Beat::Finish,
            Beat::Read,
            Beat::Sleep,
            Beat::Open,
            Beat::Write,
            Beat::Finish,
            Beat::Read,
            Beat::Sleep,
            Beat::Open,
        ]
    );
}

#[test]
fn keep_alive_ends_with_the_first_fault() {
    for beat in [Beat::Open, Beat::Write, Beat::Finish, Beat::Read, Beat::Sleep] {
        for fault in [
            Fault::Transport(TransportError::Aborted),
            Fault::Transport(TransportError::PeerClosed),
            Fault::Codec(CodecError::Oversized),
            Fault::Codec(CodecError::Unwritable),
        ] {
            assert_eq!(handle_outgoing_keep_alive(beat, Err(fault)), Err(fault));
        }
    }
}

#[test]
fn keep_alive_ends_with_a_reply_over_the_limit() {
    let mut reply = PONG.to_vec();
    reply.resize(READ_LIMIT + 1, b' ');
    assert_eq!(keep_alive_reply(Ok(reply.clone())), Err(Fault::Codec(CodecError::Oversized)));
    assert_eq!(
        handle_outgoing_keep_alive(Beat::Read, keep_alive_reply(Ok(reply.clone())).map(|_| ())),
        Err(Fault::Codec(CodecError::Oversized))
    );
    reply.truncate(READ_LIMIT);
    assert_eq!(keep_alive_reply(Ok(reply)), Ok(Probe::Pong));
    assert_eq!(
        keep_alive_reply(Err(Fault::Codec(CodecError::Oversized))),
        Err(Fault::Codec(CodecError::Oversized))
    );
    assert_eq!(
        keep_alive_reply(Err(Fault::Transport(TransportError::Aborted))),
        Err(Fault::Transport(TransportError::Aborted))
    );
}

#[test]
fn request_over_the_limit_is_refused_whatever_it_holds() {
    let mut body = PING.to_vec();
    body.resize(READ_LIMIT + 1, b' ');
    assert_eq!(
        handle_incoming_bi_request(&body).err(),
        Some(Fault::Codec(CodecError::Oversized))
    );
    assert_eq!(
        handle_incoming_uni_request(&body).err(),
        Some(Fault::Codec(CodecError::Oversized))
    );
    assert_eq!(decode_request(&body).err(), Some(Fault::Codec(CodecError::Oversized)));
    let junk = vec![0xffu8; READ_LIMIT + 1];
    assert_eq!(
        handle_incoming_bi_request(&junk).err(),
        Some(Fault::Codec(CodecError::Oversized))
    );
    assert_eq!(
        handle_incoming_uni_request(&junk).err(),
        Some(Fault::Codec(CodecError::Oversized))
    );
}

#[test]
fn request_of_exactly_the_limit_is_handled() {
    let mut body = PING.to_vec();
    body.resize(READ_LIMIT, b' ');
    let handled = handle_incoming_bi_request(&body).unwrap();
    assert_eq!(handled.payload, Payload::V1(Version1::Ping));
    assert_eq!(handled.reply, Some(PONG.to_vec()));
    assert_eq!(handle_incoming_uni_request(&body), Ok(Payload::V1(Version1::Ping)));
    assert_eq!(decode_request(&body), Ok(Payload::V1(Version1::Ping)));
    let junk = vec![0xffu8; READ_LIMIT];
    assert_eq!(
        handle_incoming_bi_request(&junk).err(),
        Some(Fault::Codec(CodecError::Malformed))
    );
    assert_eq!(
        handle_incoming_uni_request(&junk).err(),
        Some(Fault::Codec(CodecError::Malformed))
    );
}

#[test]
fn keep_alive_request_is_a_ping() {
    assert_eq!(keep_alive_request(), Ok(PING.to_vec()));
}

#[test]
fn keep_alive_reply_is_only_probed() {
    assert_eq!(keep_alive_reply(Ok(PONG.to_vec())), Ok(Probe::Pong));
    assert_eq!(keep_alive_reply(Ok(PING.to_vec())), Ok(Probe::Unexpected));
    assert_eq!(keep_alive_reply(Ok(Vec::new())), Ok(Probe::Undecodable));
    assert_eq!(
        keep_alive_reply(Ok(b"{\"version\":\"1\",\"payload\"".to_vec())),
        Ok(Probe::Undecodable)
    );
    for probe in [Probe::Pong, Probe::Unexpected, Probe::Undecodable] {
        let outcome: Result<Probe, Fault> = Ok(probe);
        assert_eq!(
            handle_outgoing_keep_alive(Beat::Read, outcome.map(|_| ())),
            Ok(Beat::Sleep)
        );
    }
}

#[test]
fn outbound_writer_encodes_what_is_queued() {
    assert_eq!(handle_outgoing_stream(None), Ok(None));
    assert_eq!(
        handle_outgoing_stream(Some(&Payload::V1(Version1::Pong))),
        Ok(Some(PONG.to_vec()))
    );
    assert_eq!(
        handle_outgoing_stream(Some(&Payload::V1(Version1::Spawn(Spawn)))),
        Ok(Some(b"{\"version\":\"1\",\"payload\":{\"type\":\"spawn\",\"message\":null}}".to_vec()))
    );
}
