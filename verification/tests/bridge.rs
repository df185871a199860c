use quic_bridge::bridge::{
    forward, forward_step, multiplex, receive_outcome, try_receive_event, Idle, Inbox, Outlet, Received,
};
use quic_bridge::protocol::{
    Despawn, Despawned, Event, Payload, Spawn, Spawned, Version1,
};
use quic_bridge::session::{created_event, destroyed_event, payload_event};

fn spawned(id: &str) -> Spawned {
    Spawned {
        id: id.to_owned(),
        x: serde_json::Number::from(1u64),
        y: serde_json::Number::from(2u64),
    }
}

#[test]
fn bridge_is_polled_without_blocking() {
    let (events, mut receiver) = tokio::sync::mpsc::unbounded_channel::<Event>();
    assert!(matches!(try_receive_event(&mut receiver), Received::Empty));
    events.send(payload_event(3, Payload::V1(Version1::Ping))).unwrap();
    match try_receive_event(&mut receiver) {
        Received::Event(event) => assert_eq!(event.connection_id, 3),
        other => panic!("no event: {:?}", other),
    }
    assert!(matches!(try_receive_event(&mut receiver), Received::Empty));
    drop(events);
    assert!(matches!(try_receive_event(&mut receiver), Received::Disconnected));
}

#[test]
fn outcome_of_a_receive_is_what_the_consumer_sees() {
    assert!(matches!(receive_outcome(Err(Idle::Empty)), Received::Empty));
    assert!(matches!(receive_outcome(Err(Idle::Disconnected)), Received::Disconnected));
    match receive_outcome(Ok(destroyed_event(12))) {
        Received::Event(event) => assert_eq!(event.connection_id, 12),
        other => panic!("no event: {:?}", other),
    }
}

#[test]
fn inbox_sorts_events_by_kind() {
    let (sender, _receiver) = tokio::sync::mpsc::unbounded_channel::<Payload>();
    let mut inbox = Inbox::new();
    inbox.route(created_event(1, sender));
    inbox.route(payload_event(1, Payload::V1(Version1::Ping)));
    inbox.route(payload_event(1, Payload::V1(Version1::Pong)));
    inbox.route(payload_event(1, Payload::V1(Version1::Spawn(Spawn))));
    inbox.route(payload_event(2, Payload::V1(Version1::Spawned(spawned("a")))));
    inbox.route(payload_event(3, Payload::V1(Version1::Spawned(spawned("b")))));
    inbox.route(payload_event(4, Payload::V1(Version1::Despawn(Despawn))));
    inbox.route(payload_event(
        5,
        Payload::V1(Version1::Despawned(Despawned { id: "a".to_owned() })),
    ));
    inbox.route(destroyed_event(1));
    assert_eq!(inbox.created.len(), 1);
    assert_eq!(inbox.created[0].connection_id, 1);
    assert_eq!(inbox.destroyed.len(), 1);
    assert_eq!(inbox.destroyed[0].connection_id, 1);
    assert_eq!(inbox.spawn.len(), 1);
    assert_eq!(inbox.spawn[0].connection_id, 1);
    assert_eq!(inbox.spawned.len(), 2);
    assert_eq!(inbox.spawned[0].connection_id, 2);
    assert_eq!(inbox.spawned[0].data, spawned("a"));
    assert_eq!(inbox.spawned[1].connection_id, 3);
    assert_eq!(inbox.spawned[1].data, spawned("b"));
    assert_eq!(inbox.despawn.len(), 1);
    assert_eq!(inbox.despawn[0].connection_id, 4);
    assert_eq!(inbox.despawned.len(), 1);
    assert_eq!(inbox.despawned[0].connection_id, 5);
    assert_eq!(inbox.despawned[0].data, Despawned { id: "a".to_owned() });
}

#[test]
fn inbox_takes_an_idle_poll_as_nothing() {
    let mut inbox = Inbox::new();
    assert_eq!(inbox.take(Err(Idle::Empty)), Some(Idle::Empty));
    assert_eq!(inbox.take(Err(Idle::Disconnected)), Some(Idle::Disconnected));
    assert_eq!(inbox.take(Ok(destroyed_event(2))), None);
    assert_eq!(inbox.destroyed.len(), 1);
    assert_eq!(inbox.created.len() + inbox.spawn.len() + inbox.spawned.len(), 0);
    assert_eq!(inbox.despawn.len() + inbox.despawned.len(), 0);
}

#[test]
fn multiplex_moves_one_event_per_poll() {
    let (events, mut receiver) = tokio::sync::mpsc::unbounded_channel::<Event>();
    let mut inbox = Inbox::new();
    assert_eq!(multiplex(&mut receiver, &mut inbox), Some(Idle::Empty));
    events.send(payload_event(7, Payload::V1(Version1::Spawn(Spawn)))).unwrap();
    events.send(destroyed_event(7)).unwrap();
    assert_eq!(multiplex(&mut receiver, &mut inbox), None);
    assert_eq!(inbox.spawn.len(), 1);
    assert_eq!(inbox.destroyed.len(), 0);
    assert_eq!(multiplex(&mut receiver, &mut inbox), None);
    assert_eq!(inbox.destroyed.len(), 1);
    assert_eq!(inbox.destroyed[0].connection_id, 7);
    drop(events);
    assert_eq!(multiplex(&mut receiver, &mut inbox), Some(Idle::Disconnected));
    assert_eq!(inbox.spawn.len(), 1);
    assert_eq!(inbox.destroyed.len(), 1);
}

#[test]
fn forward_drains_the_bridge_in_order() {
    let (events, mut receiver) = tokio::sync::mpsc::unbounded_channel::<Event>();
    for id in 0..5 {
        events.send(destroyed_event(id)).unwrap();
    }
    let mut writer = vec![destroyed_event(100)];
    assert_eq!(forward(&mut receiver, &mut writer, 3), None);
    let ids: Vec<usize> = writer.iter().map(|event| event.connection_id).collect();
    assert_eq!(ids, vec![100, 0, 1, 2]);
    assert_eq!(forward(&mut receiver, &mut writer, 10), Some(Idle::Empty));
    let ids: Vec<usize> = writer.iter().map(|event| event.connection_id).collect();
    assert_eq!(ids, vec![100, 0, 1, 2, 3, 4]);
    drop(events);
    assert_eq!(forward(&mut receiver, &mut writer, 10), Some(Idle::Disconnected));
    assert_eq!(writer.len(), 6);
    assert_eq!(forward(&mut receiver, &mut writer, 0), None);
}

#[test]
fn forward_stops_at_the_limit_without_a_further_poll() {
    let (events, mut receiver) = tokio::sync::mpsc::unbounded_channel::<Event>();
    for id in 0..4 {
        events.send(destroyed_event(id)).unwrap();
    }
    drop(events);
    let mut writer = Vec::new();
    assert_eq!(forward(&mut receiver, &mut writer, 0), None);
    assert_eq!(writer.len(), 0);
    assert_eq!(forward(&mut receiver, &mut writer, 4), None);
    assert_eq!(writer.len(), 4);
    assert_eq!(forward(&mut receiver, &mut writer, 1), Some(Idle::Disconnected));
    assert_eq!(writer.len(), 4);
    let ids: Vec<usize> = writer.iter().map(|event| event.connection_id).collect();
    assert_eq!(ids, vec![0, 1, 2, 3]);
}

#[test]
fn outlet_hands_events_to_the_bridge_in_order() {
    let (events, mut receiver) = tokio::sync::mpsc::unbounded_channel::<Event>();
    let mut outlet = Outlet::new(events);
    assert!(outlet.send(destroyed_event(1)).is_ok());
    assert!(outlet.send(payload_event(2, Payload::V1(Version1::Ping))).is_ok());
    let mut writer = Vec::new();
    assert_eq!(forward(&mut receiver, &mut writer, 5), Some(Idle::Empty));
    let ids: Vec<usize> = writer.iter().map(|event| event.connection_id).collect();
    assert_eq!(ids, vec![1, 2]);
    drop(outlet);
    assert_eq!(forward(&mut receiver, &mut writer, 5), Some(Idle::Disconnected));
}

#[test]
fn outlet_hands_back_what_the_bridge_refuses() {
    let (events, receiver) = tokio::sync::mpsc::unbounded_channel::<Event>();
    let mut outlet = Outlet::new(events);
    drop(receiver);
    match outlet.send(payload_event(9, Payload::V1(Version1::Pong))) {
        Err(back) => {
            assert_eq!(back.connection_id, 9);
            assert!(matches!(back.data, quic_bridge::protocol::Data::Payload(Payload::V1(Version1::Pong))));
        }
        Ok(()) => panic!("a bridge without a receiver took an event"),
    }
}

#[test]
fn one_poll_moves_one_event_or_ends_the_run() {
    let mut writer = vec![destroyed_event(1)];
    assert_eq!(forward_step(&mut writer, Ok(destroyed_event(2))), None);
    assert_eq!(forward_step(&mut writer, Err(Idle::Empty)), Some(Idle::Empty));
    assert_eq!(forward_step(&mut writer, Ok(destroyed_event(3))), None);
    assert_eq!(forward_step(&mut writer, Err(Idle::Disconnected)), Some(Idle::Disconnected));
    let ids: Vec<usize> = writer.iter().map(|event| event.connection_id).collect();
    assert_eq!(ids, vec![1, 2, 3]);
}
