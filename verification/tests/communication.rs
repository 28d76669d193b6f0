use mpc_signing::communication::create_communication_channel::Db;
use mpc_signing::communication::envelope::{
    decode_envelope, envelope_from_fields, identity_from_wire, Envelope, EnvelopeError,
};
use mpc_signing::communication::room::{
    endpoint_for, Delivery, Post, RelayAction, RelayEvent, RelayState, Room,
};

#[test]
fn broadcast_is_always_forwarded() {
    let room = Room::new(2, 7, ());
    let message = String::from("{\"sender\":1,\"receiver\":null,\"body\":\"x\"}");
    assert_eq!(room.receive(message.clone()), Delivery::Forward(message));
    let bare = String::from("{\"sender\":1,\"body\":\"x\"}");
    assert_eq!(room.receive(bare.clone()), Delivery::Forward(bare));
}

#[test]
fn message_for_this_server_is_forwarded() {
    let room = Room::new(2, 7, ());
    let message = String::from("{\"sender\":1,\"receiver\":2,\"body\":\"x\"}");
    assert_eq!(room.receive(message.clone()), Delivery::Forward(message));
}

#[test]
fn message_for_another_server_is_filtered() {
    let room = Room::new(2, 7, ());
    let message = String::from("{\"sender\":1,\"receiver\":3,\"body\":\"x\"}");
    assert_eq!(room.receive(message), Delivery::Filtered { receiver: 3 });
}

#[test]
fn message_that_is_not_json_is_dropped() {
    let room = Room::new(2, 7, ());
    assert_eq!(room.receive(String::from("Invalid UTF-8")), Delivery::Malformed);
    assert_eq!(room.receive(String::new()), Delivery::Malformed);
}

#[test]
fn receiver_that_is_no_number_counts_as_broadcast() {
    let room = Room::new(2, 7, ());
    let message = String::from("{\"sender\":1,\"receiver\":\"3\",\"body\":\"x\"}");
    assert_eq!(room.receive(message.clone()), Delivery::Forward(message));
    let negative = String::from("{\"sender\":1,\"receiver\":-3,\"body\":\"x\"}");
    assert_eq!(room.receive(negative.clone()), Delivery::Forward(negative));
}

#[test]
fn route_decides_on_the_addressing() {
    let room = Room::new(2, 7, ());
    let m = String::from("m");
    assert_eq!(room.route(m.clone(), None), Delivery::Malformed);
    assert_eq!(room.route(m.clone(), Some((None, None))), Delivery::Forward(m.clone()));
    assert_eq!(room.route(m.clone(), Some((Some(1), Some(2)))), Delivery::Forward(m.clone()));
    assert_eq!(
        room.route(m.clone(), Some((Some(1), Some(1)))),
        Delivery::Filtered { receiver: 1 }
    );
    // identities are the low 16 bits of the number on the wire
    assert_eq!(room.route(m.clone(), Some((Some(1), Some(65538)))), Delivery::Forward(m.clone()));
    assert_eq!(
        room.route(m.clone(), Some((Some(1), Some(65539)))),
        Delivery::Filtered { receiver: 3 }
    );
}

#[test]
fn identity_is_taken_from_the_low_bits() {
    assert_eq!(identity_from_wire(0), 0);
    assert_eq!(identity_from_wire(65535), 65535);
    assert_eq!(identity_from_wire(65536), 0);
    assert_eq!(identity_from_wire(65537), 1);
    assert_eq!(identity_from_wire(u64::MAX), 65535);
}

#[test]
fn room_keeps_what_it_was_made_with() {
    let room = Room::new(2, 7, String::from("sink"));
    assert_eq!(room.server_id(), 2);
    assert_eq!(room.room_id(), 7);
    assert_eq!(room.handle(), "sink");
}

#[test]
fn endpoint_names_the_room() {
    assert_eq!(endpoint_for("127.0.0.1:3001", 7), "https://127.0.0.1:3001/receive_broadcast/7");
    assert_eq!(endpoint_for("", 0), "https:///receive_broadcast/0");
    assert_eq!(endpoint_for("peer", 65535), "https://peer/receive_broadcast/65535");
}

#[test]
fn relay_posts_every_message_to_every_peer() {
    let room = Room::new(2, 7, ());
    let urls = vec![String::from("a:1"), String::from("b:2")];
    let mut relay = room.init_room(&urls);
    assert_eq!(relay.state(), RelayState::Idle);
    assert_eq!(relay.round(), 0);
    let action = relay.on_event(RelayEvent::Message(String::from("first")));
    assert_eq!(
        action,
        RelayAction::Broadcast(vec![
            Post { endpoint: String::from("https://a:1/receive_broadcast/7"), body: String::from("first") },
            Post { endpoint: String::from("https://b:2/receive_broadcast/7"), body: String::from("first") },
        ])
    );
    assert_eq!(relay.state(), RelayState::Relaying);
    assert_eq!(relay.round(), 1);
    let action = relay.on_event(RelayEvent::Message(String::from("second")));
    match action {
        RelayAction::Broadcast(posts) => {
            assert_eq!(posts.len(), 2);
            assert_eq!(posts[1].body, "second");
        }
        RelayAction::Stop => panic!("the relay stopped early"),
    }
    assert_eq!(relay.round(), 2);
}

#[test]
fn relay_ends_with_its_stream_and_stays_ended() {
    let room = Room::new(2, 7, ());
    let urls = vec![String::from("a:1")];
    let mut closed = room.init_room(&urls);
    assert_eq!(closed.on_event(RelayEvent::StreamClosed), RelayAction::Stop);
    assert_eq!(closed.state(), RelayState::Terminated);
    assert_eq!(closed.on_event(RelayEvent::Message(String::from("late"))), RelayAction::Stop);
    assert_eq!(closed.state(), RelayState::Terminated);
    assert_eq!(closed.round(), 0);

    let mut failed = room.init_room(&urls);
    failed.on_event(RelayEvent::Message(String::from("m")));
    assert_eq!(failed.on_event(RelayEvent::StreamError), RelayAction::Stop);
    assert_eq!(failed.state(), RelayState::Terminated);
    assert_eq!(failed.round(), 1);
}

#[test]
fn relay_without_peers_posts_nothing() {
    let room = Room::new(2, 7, ());
    let mut relay = room.init_room(&Vec::new());
    assert_eq!(
        relay.on_event(RelayEvent::Message(String::from("m"))),
        RelayAction::Broadcast(Vec::new())
    );
}

#[test]
fn registry_starts_empty() {
    let db: Db<u32> = Db::empty(1);
    assert!(db.get_room(0).is_none());
    assert!(db.get_room(7).is_none());
}

#[test]
fn created_room_is_found() {
    let mut db: Db<u32> = Db::empty(1);
    db.create_room(1, 7, 100);
    let room = db.get_room(7).unwrap();
    assert_eq!(room.server_id(), 1);
    assert_eq!(room.room_id(), 7);
    assert_eq!(*room.handle(), 100);
    assert!(db.get_room(8).is_none());
}

#[test]
fn new_room_replaces_the_old_one() {
    let mut db: Db<u32> = Db::empty(1);
    db.create_room(1, 7, 100);
    db.create_room(1, 8, 200);
    db.create_room(2, 7, 300);
    let room = db.get_room(7).unwrap();
    assert_eq!(room.server_id(), 2);
    assert_eq!(*room.handle(), 300);
    assert_eq!(*db.get_room(8).unwrap().handle(), 200);
}

#[test]
fn deleted_room_is_gone() {
    let mut db: Db<u32> = Db::empty(1);
    db.create_room(1, 7, 100);
    db.create_room(1, 8, 200);
    db.delete_room(7);
    assert!(db.get_room(7).is_none());
    assert_eq!(*db.get_room(8).unwrap().handle(), 200);
    db.delete_room(7);
    assert!(db.get_room(7).is_none());
}

#[test]
fn envelope_is_opened() {
    let message = "{\"sender\":1,\"receiver\":2,\"body\":{\"round\":[1,2]}}";
    assert_eq!(
        decode_envelope(message),
        Ok(Envelope { sender: 1, receiver: Some(2), body: String::from("{\"round\":[1,2]}") })
    );
    let broadcast = "{\"sender\":3,\"receiver\":null,\"body\":\"p\"}";
    assert_eq!(
        decode_envelope(broadcast),
        Ok(Envelope { sender: 3, receiver: None, body: String::from("\"p\"") })
    );
}

#[test]
fn envelope_without_body_has_null() {
    assert_eq!(
        decode_envelope("{\"sender\":3}"),
        Ok(Envelope { sender: 3, receiver: None, body: String::from("null") })
    );
}

#[test]
fn envelope_needs_a_sender() {
    assert_eq!(decode_envelope("{\"receiver\":2,\"body\":1}"), Err(EnvelopeError::InvalidSender));
    assert_eq!(
        decode_envelope("{\"sender\":\"1\",\"body\":1}"),
        Err(EnvelopeError::InvalidSender)
    );
    assert_eq!(EnvelopeError::InvalidSender.message(), "Invalid 'sender' field");
}

#[test]
fn envelope_must_be_json() {
    assert_eq!(decode_envelope("sender=1"), Err(EnvelopeError::NotJson));
    assert_eq!(EnvelopeError::NotJson.message(), "parse message as JSON value");
}

#[test]
fn envelope_from_fields_covers_every_case() {
    let body = || Some(String::from("b"));
    assert_eq!(envelope_from_fields(None, body()), Err(EnvelopeError::NotJson));
    assert_eq!(envelope_from_fields(Some((Some(1), None)), None), Err(EnvelopeError::NotJson));
    assert_eq!(
        envelope_from_fields(Some((None, Some(1))), body()),
        Err(EnvelopeError::InvalidSender)
    );
    assert_eq!(
        envelope_from_fields(Some((Some(65537), Some(65538))), body()),
        Ok(Envelope { sender: 1, receiver: Some(2), body: String::from("b") })
    );
}
