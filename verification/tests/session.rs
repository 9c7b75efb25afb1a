use websocket::events::handle;
use websocket::json::{Command, EventData, SocketRequest};
use websocket::server::session::{
    handle_client, handle_outbound, handle_tick, Address, Event, Reaction, SocketSession,
};

fn addr() -> Address {
    Address { ip: 0x7f00_0001, port: 4000 }
}

#[test]
fn new_session_has_no_name() {
    let session = SocketSession::new(addr(), 12);
    assert_eq!(session.addr, addr());
    assert_eq!(session.hb, 12);
    assert_eq!(session.name, None);
}

#[test]
fn heartbeat_within_the_window_asks_for_a_ping() {
    let session = SocketSession::new(addr(), 100);
    for now in [0u64, 100, 101, 144, 145] {
        let ping = session.heartbeat(now).unwrap();
        assert_eq!(ping.opcode, 9);
        assert!(ping.d.is_none());
    }
}

#[test]
fn heartbeat_after_the_window_closes() {
    let session = SocketSession::new(addr(), 100);
    for now in [146u64, 200, u64::MAX] {
        let close = session.heartbeat(now).unwrap_err();
        assert_eq!(close.opcode, 8);
        assert!(close.d.is_none());
    }
}

#[test]
fn refreshed_heartbeat_gives_a_new_window() {
    let mut session = SocketSession::new(addr(), 0);
    assert!(session.heartbeat(46).is_err());
    session.refresh_hb(40);
    assert_eq!(session.hb, 40);
    assert!(session.heartbeat(46).is_ok());
    assert!(session.heartbeat(85).is_ok());
    assert!(session.heartbeat(86).is_err());
}

#[test]
fn silent_session_is_removed_on_its_tick() {
    let session = SocketSession::new(addr(), 10);
    match handle_tick(&session, 55) {
        Reaction::Deliver(ping) => assert_eq!(ping.opcode, 9),
        other => panic!("{:?}", other),
    }
    match handle_tick(&session, 56) {
        Reaction::Stop(Command::RemoveUser { addr: gone }) => assert_eq!(gone, addr()),
        other => panic!("{:?}", other),
    }
}

#[test]
fn pong_refreshes_the_heartbeat() {
    let mut session = SocketSession::new(addr(), 10);
    assert!(matches!(handle_client(&mut session, Event::Pong, 77), Reaction::Idle));
    assert_eq!(session.hb, 77);
}

#[test]
fn ping_is_answered_with_a_pong() {
    let mut session = SocketSession::new(addr(), 10);
    assert!(matches!(handle_client(&mut session, Event::Ping, 77), Reaction::Pong));
    assert_eq!(session.hb, 10);
}

#[test]
fn error_and_close_remove_the_session() {
    let mut session = SocketSession::new(addr(), 10);
    match handle_client(&mut session, Event::Error, 11) {
        Reaction::Stop(Command::RemoveUser { addr: gone }) => assert_eq!(gone, addr()),
        other => panic!("{:?}", other),
    }
    match handle_client(&mut session, Event::Close, 11) {
        Reaction::Stop(Command::RemoveUser { addr: gone }) => assert_eq!(gone, addr()),
        other => panic!("{:?}", other),
    }
    assert_eq!(session.hb, 10);
}

#[test]
fn data_frame_becomes_a_command() {
    let mut session = SocketSession::new(addr(), 10);
    let frame = SocketRequest::new(10, Some(EventData::MarkPosition { position: 4 }));
    match handle_client(&mut session, Event::Data(Some(frame)), 11) {
        Reaction::Forward(Command::MarkPosition { addr: from, data: EventData::MarkPosition { position } }) => {
            assert_eq!(from, addr());
            assert_eq!(position, 4);
        }
        other => panic!("{:?}", other),
    }
    assert_eq!(session.hb, 10);
}

#[test]
fn undecodable_or_unknown_frame_is_passed_over() {
    let mut session = SocketSession::new(addr(), 10);
    assert!(matches!(handle_client(&mut session, Event::Data(None), 11), Reaction::Idle));
    let frame = SocketRequest::new(4242, None);
    assert!(matches!(handle_client(&mut session, Event::Data(Some(frame)), 11), Reaction::Idle));
}

#[test]
fn outbound_close_ping_and_message() {
    match handle_outbound(addr(), SocketRequest::new(8, None)) {
        Reaction::Stop(Command::RemoveUser { addr: gone }) => assert_eq!(gone, addr()),
        other => panic!("{:?}", other),
    }
    assert!(matches!(handle_outbound(addr(), SocketRequest::new(9, None)), Reaction::Ping));
    match handle_outbound(addr(), SocketRequest::new(11, Some(EventData::EndRoom { status: 2 }))) {
        Reaction::Write(message) => {
            assert_eq!(message.opcode, 11);
            assert!(matches!(message.d, Some(EventData::EndRoom { status: 2 })));
        }
        other => panic!("{:?}", other),
    }
}

#[test]
fn each_client_opcode_has_its_command() {
    let a = addr();
    assert!(matches!(
        handle(a, SocketRequest::new(10, Some(EventData::MarkPosition { position: 8 }))),
        Some(Command::MarkPosition { addr, data: EventData::MarkPosition { position: 8 } }) if addr == a
    ));
    match handle(
        a,
        SocketRequest::new(
            12,
            Some(EventData::JoinRoom {
                player_name: "Bob".to_string(),
                room_id: 3,
                room_code: Some("ABCDE".to_string()),
            }),
        ),
    ) {
        Some(Command::JoinUser { addr, data: EventData::JoinRoom { player_name, room_id, room_code } }) => {
            assert_eq!(addr, a);
            assert_eq!(player_name, "Bob");
            assert_eq!(room_id, 3);
            assert_eq!(room_code.as_deref(), Some("ABCDE"));
        }
        other => panic!("{:?}", other),
    }
    assert!(matches!(handle(a, SocketRequest::new(14, None)), Some(Command::LeaveRoom { addr }) if addr == a));
    match handle(
        a,
        SocketRequest::new(15, Some(EventData::CreateRoom { player_name: "Ann".to_string(), public: false })),
    ) {
        Some(Command::CreateRoom { addr, data: EventData::CreateRoom { player_name, public } }) => {
            assert_eq!(addr, a);
            assert_eq!(player_name, "Ann");
            assert!(!public);
        }
        other => panic!("{:?}", other),
    }
    assert!(matches!(
        handle(a, SocketRequest::new(16, Some(EventData::DeleteRoom { id: 2 }))),
        Some(Command::DeleteRoom { addr, id: 2 }) if addr == a
    ));
    assert!(matches!(handle(a, SocketRequest::new(17, None)), Some(Command::ListRooms { addr }) if addr == a));
    assert!(matches!(handle(a, SocketRequest::new(22, None)), Some(Command::PlayAgain { addr }) if addr == a));
}

#[test]
fn opcode_and_payload_must_agree() {
    let a = addr();
    assert!(handle(a, SocketRequest::new(10, None)).is_none());
    assert!(handle(a, SocketRequest::new(10, Some(EventData::EndRoom { status: 1 }))).is_none());
    assert!(handle(a, SocketRequest::new(12, Some(EventData::MarkPosition { position: 1 }))).is_none());
    assert!(handle(a, SocketRequest::new(14, Some(EventData::Left { id: 0 }))).is_none());
    assert!(handle(a, SocketRequest::new(15, None)).is_none());
    assert!(handle(a, SocketRequest::new(16, Some(EventData::RoomDeleted { id: 0 }))).is_none());
    assert!(handle(a, SocketRequest::new(17, Some(EventData::ListRooms { parties: None }))).is_none());
    assert!(handle(a, SocketRequest::new(22, Some(EventData::Message("x".to_string())))).is_none());
    for opcode in [0u32, 8, 9, 11, 13, 18, 19, 20, 21, 1007] {
        assert!(handle(a, SocketRequest::new(opcode, None)).is_none());
    }
}
