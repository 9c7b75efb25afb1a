use websocket::commands::game::{play_again, position};
use websocket::commands::rooms::{create, create_with_code, delete, generate_room_code, leave, list};
use websocket::commands::users::{get_session, join, join_room, notify_joined, remove, same_code};
use websocket::commands::{find_room, find_waiting, handle, notify_connections};
use websocket::json::{Command, EventData, Party, SocketRequest};
use websocket::server::room::Room;
use websocket::server::session::{Address, SocketSession};
use websocket::server::{send_message, sweep, App, Delivery};
use websocket::settings::AppSettings;

fn addr(port: u16) -> Address {
    Address { ip: 10, port }
}

fn waiting(port: u16) -> SocketSession {
    SocketSession::new(addr(port), 0)
}

fn named(port: u16, name: &str) -> SocketSession {
    let mut session = waiting(port);
    session.name = Some(name.to_string());
    session
}

fn ports(queue: &Vec<SocketSession>) -> Vec<u16> {
    queue.iter().map(|session| session.addr.port).collect()
}

fn to(out: &Vec<Delivery>) -> Vec<u16> {
    out.iter().map(|delivery| delivery.to.port).collect()
}

fn opcodes(out: &Vec<Delivery>) -> Vec<u32> {
    out.iter().map(|delivery| delivery.message.opcode).collect()
}

fn is_code(code: &str) -> bool {
    code.chars().count() == 5 && code.chars().all(|c| c.is_ascii_uppercase() || c.is_ascii_digit())
}

/// Two named players in one public room, nobody waiting.
fn match_of_two() -> (Vec<Room>, Vec<SocketSession>) {
    let rooms = vec![Room::new(Some(named(1, "Ann")), Some(named(2, "Bob")), None, "Ann".to_string())];
    (rooms, Vec::new())
}

#[test]
fn send_message_appends() {
    let mut out: Vec<Delivery> = Vec::new();
    send_message(&mut out, addr(1), SocketRequest::new(9, None));
    send_message(&mut out, addr(2), SocketRequest::new(8, None));
    assert_eq!(to(&out), vec![1, 2]);
    assert_eq!(opcodes(&out), vec![9, 8]);
}

#[test]
fn notify_connections_reaches_every_waiting_session_in_order() {
    let queue = vec![waiting(5), waiting(3), waiting(9)];
    let mut out: Vec<Delivery> = Vec::new();
    notify_connections(SocketRequest::new(19, Some(EventData::RoomDeleted { id: 4 })), &queue, &mut out);
    assert_eq!(to(&out), vec![5, 3, 9]);
    for delivery in out.iter() {
        assert_eq!(delivery.message.opcode, 19);
        assert!(matches!(delivery.message.d, Some(EventData::RoomDeleted { id: 4 })));
    }
    let mut none: Vec<Delivery> = Vec::new();
    notify_connections(SocketRequest::new(19, None), &Vec::new(), &mut none);
    assert!(none.is_empty());
}

#[test]
fn find_room_and_find_waiting_take_the_first() {
    let rooms = vec![
        Room::new(Some(named(1, "a")), None, None, "a".to_string()),
        Room::new(Some(named(2, "b")), Some(named(3, "c")), None, "b".to_string()),
        Room::new(Some(named(3, "c")), None, None, "c".to_string()),
    ];
    assert_eq!(find_room(&rooms, addr(1)), Some(0));
    assert_eq!(find_room(&rooms, addr(3)), Some(1));
    assert_eq!(find_room(&rooms, addr(4)), None);
    assert_eq!(find_room(&Vec::new(), addr(1)), None);
    let queue = vec![waiting(7), waiting(8), waiting(7)];
    assert_eq!(find_waiting(&queue, addr(7)), Some(0));
    assert_eq!(find_waiting(&queue, addr(8)), Some(1));
    assert_eq!(find_waiting(&queue, addr(9)), None);
}

#[test]
fn get_session_takes_the_session_out() {
    let mut queue = vec![waiting(1), waiting(2), waiting(3)];
    let session = get_session(addr(2), &mut queue).unwrap();
    assert_eq!(session.addr, addr(2));
    assert_eq!(ports(&queue), vec![1, 3]);
    assert!(get_session(addr(2), &mut queue).is_none());
    assert_eq!(ports(&queue), vec![1, 3]);
}

#[test]
fn generated_code_is_five_capitals_or_digits() {
    assert_eq!(generate_room_code(true), None);
    for _ in 0..200 {
        let code = generate_room_code(false).unwrap();
        assert!(is_code(&code), "{}", code);
    }
}

#[test]
fn private_room_scenario() {
    let mut rooms: Vec<Room> = Vec::new();
    let mut queue = vec![waiting(1), waiting(2), waiting(3)];
    let out = create(addr(1), "Ann".to_string(), false, &mut rooms, &mut queue);

    assert_eq!(ports(&queue), vec![2, 3]);
    assert_eq!(rooms.len(), 1);
    let room = &rooms[0];
    assert_eq!(room.name, "Ann");
    assert_eq!(room.player1.as_ref().unwrap().addr, addr(1));
    assert_eq!(room.player1.as_ref().unwrap().name.as_deref(), Some("Ann"));
    assert!(room.player2.is_none());
    assert_eq!(room.tray, [' '; 9]);
    assert!(room.player1_turn);
    assert_eq!(room.duration_turn, None);
    let code = room.code.clone().unwrap();
    assert!(is_code(&code));

    assert_eq!(to(&out), vec![1, 2, 3]);
    assert_eq!(opcodes(&out), vec![21, 18, 18]);
    match &out[0].message.d {
        Some(EventData::OwnerCode { code: told }) => assert_eq!(told, &code),
        other => panic!("{:?}", other),
    }
    for delivery in out[1..].iter() {
        match &delivery.message.d {
            Some(EventData::RoomCreated { id, player_name, players_amount, public }) => {
                assert_eq!(*id, 0);
                assert_eq!(player_name, "Ann");
                assert_eq!(*players_amount, 1);
                assert!(!*public);
            }
            other => panic!("{:?}", other),
        }
    }

    let listing = list(addr(2), &rooms, &queue);
    assert_eq!(to(&listing), vec![2]);
    assert_eq!(listing[0].message.opcode, 17);
    match &listing[0].message.d {
        Some(EventData::ListRooms { parties: Some(parties) }) => {
            assert_eq!(parties.len(), 1);
            assert_eq!(parties[0].id, 0);
            assert_eq!(parties[0].player_name, "Ann");
            assert_eq!(parties[0].players_amount, 1);
            assert!(!parties[0].public);
        }
        other => panic!("{:?}", other),
    }
}

#[test]
fn public_room_has_no_code_and_nobody_is_told_one() {
    let mut rooms = vec![Room::new(Some(named(9, "Old")), None, None, "Old".to_string())];
    let mut queue = vec![waiting(2), waiting(1)];
    let out = create(addr(1), "Ann".to_string(), true, &mut rooms, &mut queue);
    assert_eq!(rooms.len(), 2);
    assert!(rooms[1].code.is_none());
    assert_eq!(to(&out), vec![2]);
    assert_eq!(opcodes(&out), vec![18]);
    assert!(matches!(
        &out[0].message.d,
        Some(EventData::RoomCreated { id: 1, players_amount: 1, public: true, .. })
    ));
}

#[test]
fn create_with_a_given_code() {
    let mut rooms: Vec<Room> = Vec::new();
    let mut queue = vec![named(1, "Old name")];
    let out = create_with_code(addr(1), "Ann".to_string(), Some("ZZ9ZZ".to_string()), &mut rooms, &mut queue);
    assert!(queue.is_empty());
    assert_eq!(rooms[0].code.as_deref(), Some("ZZ9ZZ"));
    assert_eq!(rooms[0].player1.as_ref().unwrap().name.as_deref(), Some("Ann"));
    assert_eq!(to(&out), vec![1]);
    assert!(matches!(&out[0].message.d, Some(EventData::OwnerCode { code }) if code == "ZZ9ZZ"));
}

#[test]
fn create_needs_a_waiting_session() {
    let (mut rooms, mut queue) = match_of_two();
    queue.push(waiting(3));
    let out = create(addr(1), "Ann".to_string(), false, &mut rooms, &mut queue);
    assert!(out.is_empty());
    assert_eq!(rooms.len(), 1);
    assert_eq!(ports(&queue), vec![3]);
    let out = create(addr(77), "Who".to_string(), true, &mut rooms, &mut queue);
    assert!(out.is_empty());
    assert_eq!(rooms.len(), 1);
}

#[test]
fn join_with_the_wrong_code_seats_nobody() {
    let mut rooms = vec![Room::new(Some(named(1, "Ann")), None, Some("ABCDE".to_string()), "Ann".to_string())];
    for code in [None, Some("ABCDF".to_string()), Some("abcde".to_string()), Some("".to_string())] {
        let mut queue = vec![waiting(2)];
        let out = join(addr(2), "Bob".to_string(), 0, code, &mut rooms, &mut queue);
        assert!(out.is_empty());
        assert!(rooms[0].player2.is_none());
        assert_eq!(rooms[0].player1.as_ref().unwrap().addr, addr(1));
        assert_eq!(ports(&queue), vec![2]);
        assert_eq!(queue[0].name, None);
    }
    let mut public = vec![Room::new(Some(named(1, "Ann")), None, None, "Ann".to_string())];
    let mut queue = vec![waiting(2)];
    let out = join(addr(2), "Bob".to_string(), 0, Some("ABCDE".to_string()), &mut public, &mut queue);
    assert!(out.is_empty());
    assert!(public[0].player2.is_none());
    assert_eq!(ports(&queue), vec![2]);
}

#[test]
fn join_with_the_right_code_seats_and_announces() {
    let mut rooms = vec![Room::new(Some(named(1, "Ann")), None, Some("ABCDE".to_string()), "Ann".to_string())];
    let mut queue = vec![waiting(3), waiting(2)];
    let out = join(addr(2), "Bob".to_string(), 0, Some("ABCDE".to_string()), &mut rooms, &mut queue);
    assert_eq!(ports(&queue), vec![3]);
    let seated = rooms[0].player2.as_ref().unwrap();
    assert_eq!(seated.addr, addr(2));
    assert_eq!(seated.name.as_deref(), Some("Bob"));
    assert_eq!(to(&out), vec![1, 2]);
    assert_eq!(opcodes(&out), vec![13, 13]);
    assert!(matches!(&out[0].message.d, Some(EventData::Joined { id: 0, name }) if name == "Bob"));
    assert!(matches!(&out[1].message.d, Some(EventData::Joined { id: 1, name }) if name == "Ann"));
}

#[test]
fn join_prefers_seat_one() {
    let mut rooms = vec![Room::new(None, Some(named(2, "Bob")), None, "Bob".to_string())];
    let mut queue = vec![waiting(1)];
    let out = join(addr(1), "Ann".to_string(), 0, None, &mut rooms, &mut queue);
    assert_eq!(rooms[0].player1.as_ref().unwrap().addr, addr(1));
    assert_eq!(to(&out), vec![2, 1]);
    assert!(matches!(&out[0].message.d, Some(EventData::Joined { id: 1, name }) if name == "Ann"));
    assert!(matches!(&out[1].message.d, Some(EventData::Joined { id: 0, name }) if name == "Bob"));

    let mut empty = vec![Room::new(None, None, None, "x".to_string())];
    let mut queue = vec![waiting(1)];
    let out = join(addr(1), "Ann".to_string(), 0, None, &mut empty, &mut queue);
    assert!(out.is_empty());
    assert_eq!(empty[0].player1.as_ref().unwrap().addr, addr(1));
    assert!(empty[0].player2.is_none());
    assert!(queue.is_empty());
}

#[test]
fn join_is_dropped_when_seated_full_or_unknown() {
    let (mut rooms, mut queue) = match_of_two();
    queue.push(waiting(3));
    let out = join(addr(3), "Cat".to_string(), 0, None, &mut rooms, &mut queue);
    assert!(out.is_empty());
    assert_eq!(ports(&queue), vec![3]);
    assert_eq!(rooms[0].player2.as_ref().unwrap().addr, addr(2));

    let out = join(addr(3), "Cat".to_string(), 1, None, &mut rooms, &mut queue);
    assert!(out.is_empty());
    assert_eq!(ports(&queue), vec![3]);
    let out = join(addr(3), "Cat".to_string(), 255, None, &mut rooms, &mut queue);
    assert!(out.is_empty());

    rooms.push(Room::new(None, None, None, "free".to_string()));
    let out = join(addr(1), "Ann".to_string(), 1, None, &mut rooms, &mut queue);
    assert!(out.is_empty());
    assert!(rooms[1].player1.is_none());
    let out = join(addr(8), "Nobody".to_string(), 1, None, &mut rooms, &mut queue);
    assert!(out.is_empty());
    assert!(rooms[1].player1.is_none());
    assert_eq!(ports(&queue), vec![3]);
}

#[test]
fn join_room_hands_the_session_back_from_a_full_room() {
    let (mut rooms, _) = match_of_two();
    let mut out: Vec<Delivery> = Vec::new();
    let back = join_room(named(3, "Cat"), &mut rooms[0], &mut out).unwrap();
    assert_eq!(back.addr, addr(3));
    assert!(out.is_empty());
    assert_eq!(rooms[0].player1.as_ref().unwrap().addr, addr(1));
    assert_eq!(rooms[0].player2.as_ref().unwrap().addr, addr(2));
}

#[test]
fn nameless_player_is_announced_as_anonymous() {
    let mut out: Vec<Delivery> = Vec::new();
    notify_joined(true, &waiting(1), Some(&named(2, "Bob")), &mut out);
    assert_eq!(to(&out), vec![2, 1]);
    assert!(matches!(&out[0].message.d, Some(EventData::Joined { id: 1, name }) if name == "Anonymous"));
    assert!(matches!(&out[1].message.d, Some(EventData::Joined { id: 0, name }) if name == "Bob"));
    let mut none: Vec<Delivery> = Vec::new();
    notify_joined(true, &waiting(1), None, &mut none);
    assert!(none.is_empty());
}

#[test]
fn codes_are_compared_as_text() {
    assert!(same_code(&None, &None));
    assert!(same_code(&Some("A1".to_string()), &Some("A1".to_string())));
    assert!(!same_code(&Some("A1".to_string()), &Some("A2".to_string())));
    assert!(!same_code(&Some("A1".to_string()), &None));
    assert!(!same_code(&None, &Some("".to_string())));
}

#[test]
fn top_row_scenario() {
    let (mut rooms, _) = match_of_two();
    let moves = [(1u16, 0usize), (2, 3), (1, 1), (2, 4)];
    for (turn, (port, cell)) in moves.iter().enumerate() {
        let now = 100 + turn as u64;
        let out = position(addr(*port), *cell, now, &mut rooms);
        assert_eq!(to(&out), vec![3 - *port]);
        assert_eq!(opcodes(&out), vec![10]);
        assert!(matches!(out[0].message.d, Some(EventData::MarkPosition { position }) if position == *cell));
        assert_eq!(rooms[0].duration_turn, Some(now));
        assert_eq!(rooms[0].player1_turn, *port == 2);
    }
    assert_eq!(rooms[0].tray, ['X', 'X', ' ', 'O', 'O', ' ', ' ', ' ', ' ']);

    let out = position(addr(1), 2, 200, &mut rooms);
    assert_eq!(to(&out), vec![2, 1, 2]);
    assert_eq!(opcodes(&out), vec![10, 11, 11]);
    assert!(matches!(out[0].message.d, Some(EventData::MarkPosition { position: 2 })));
    assert!(matches!(out[1].message.d, Some(EventData::EndRoom { status: 1 })));
    assert!(matches!(out[2].message.d, Some(EventData::EndRoom { status: 1 })));

    assert_eq!(rooms.len(), 1);
    assert_eq!(rooms[0].tray, [' '; 9]);
    assert!(rooms[0].player1_turn);
    assert_eq!(rooms[0].duration_turn, None);
    assert_eq!(rooms[0].player1.as_ref().unwrap().addr, addr(1));
    assert_eq!(rooms[0].player2.as_ref().unwrap().addr, addr(2));
    assert_eq!(rooms[0].name, "Ann");
}

#[test]
fn seat_two_wins_a_column() {
    let (mut rooms, _) = match_of_two();
    for (port, cell) in [(1u16, 0usize), (2, 1), (1, 2), (2, 4), (1, 3)] {
        position(addr(port), cell, 0, &mut rooms);
    }
    let out = position(addr(2), 7, 0, &mut rooms);
    assert_eq!(to(&out), vec![1, 1, 2]);
    assert!(matches!(out[1].message.d, Some(EventData::EndRoom { status: 2 })));
    assert_eq!(rooms[0].tray, [' '; 9]);
}

#[test]
fn full_board_ends_in_a_draw() {
    let (mut rooms, _) = match_of_two();
    for (port, cell) in [(1u16, 0usize), (2, 1), (1, 2), (2, 4), (1, 3), (2, 5), (1, 7), (2, 6)] {
        let out = position(addr(port), cell, 0, &mut rooms);
        assert_eq!(opcodes(&out), vec![10]);
    }
    let out = position(addr(1), 8, 0, &mut rooms);
    assert_eq!(opcodes(&out), vec![10, 11, 11]);
    assert_eq!(to(&out), vec![2, 1, 2]);
    assert!(matches!(out[1].message.d, Some(EventData::EndRoom { status: 3 })));
    assert!(matches!(out[2].message.d, Some(EventData::EndRoom { status: 3 })));
    assert_eq!(rooms[0].tray, [' '; 9]);
    assert!(rooms[0].player1_turn);
}

#[test]
fn refused_moves_are_answered_to_the_mover_alone() {
    let (mut rooms, _) = match_of_two();
    position(addr(1), 4, 10, &mut rooms);
    let cases = [(2u16, 9usize, "invalid position"), (1, 0, "not your turn"), (2, 4, "position already taken")];
    for (port, cell, text) in cases {
        let out = position(addr(port), cell, 20, &mut rooms);
        assert_eq!(to(&out), vec![port]);
        assert_eq!(opcodes(&out), vec![1007]);
        assert!(matches!(&out[0].message.d, Some(EventData::Message(message)) if message == text));
        assert_eq!(rooms[0].tray, [' ', ' ', ' ', ' ', 'X', ' ', ' ', ' ', ' ']);
        assert!(!rooms[0].player1_turn);
        assert_eq!(rooms[0].duration_turn, Some(10));
    }
}

#[test]
fn move_of_an_unseated_address_does_nothing() {
    let (mut rooms, _) = match_of_two();
    let out = position(addr(3), 0, 5, &mut rooms);
    assert!(out.is_empty());
    assert_eq!(rooms[0].tray, [' '; 9]);
    assert_eq!(rooms[0].duration_turn, None);
}

#[test]
fn lone_player_moves_without_notice() {
    let mut rooms = vec![Room::new(Some(named(1, "Ann")), None, None, "Ann".to_string())];
    let out = position(addr(1), 0, 5, &mut rooms);
    assert!(out.is_empty());
    assert_eq!(rooms[0].tray[0], 'X');
    assert!(!rooms[0].player1_turn);
}

#[test]
fn moves_touch_only_the_movers_room() {
    let mut rooms = vec![
        Room::new(Some(named(1, "Ann")), Some(named(2, "Bob")), None, "Ann".to_string()),
        Room::new(Some(named(3, "Cat")), Some(named(4, "Dan")), None, "Cat".to_string()),
    ];
    let out = position(addr(3), 8, 5, &mut rooms);
    assert_eq!(to(&out), vec![4]);
    assert_eq!(rooms[0].tray, [' '; 9]);
    assert_eq!(rooms[0].duration_turn, None);
    assert_eq!(rooms[1].tray[8], 'X');
}

#[test]
fn play_again_hands_the_turn_over_and_announces_twice() {
    let (mut rooms, _) = match_of_two();
    let out = play_again(addr(2), 50, &mut rooms);
    assert!(!rooms[0].player1_turn);
    assert_eq!(rooms[0].duration_turn, Some(50));
    assert_eq!(rooms[0].tray, [' '; 9]);
    assert_eq!(to(&out), vec![2, 1, 1, 2]);
    assert_eq!(opcodes(&out), vec![13, 13, 13, 13]);
    assert!(matches!(&out[0].message.d, Some(EventData::Joined { id: 0, name }) if name == "Ann"));
    assert!(matches!(&out[1].message.d, Some(EventData::Joined { id: 1, name }) if name == "Bob"));
    assert!(matches!(&out[2].message.d, Some(EventData::Joined { id: 1, name }) if name == "Bob"));
    assert!(matches!(&out[3].message.d, Some(EventData::Joined { id: 0, name }) if name == "Ann"));

    let out = play_again(addr(9), 60, &mut rooms);
    assert!(out.is_empty());
    assert_eq!(rooms[0].duration_turn, Some(50));
}

#[test]
fn play_again_alone_says_nothing() {
    let mut rooms = vec![Room::new(Some(named(1, "Ann")), None, None, "Ann".to_string())];
    let out = play_again(addr(1), 50, &mut rooms);
    assert!(out.is_empty());
    assert!(!rooms[0].player1_turn);
    assert_eq!(rooms[0].duration_turn, Some(50));
}

#[test]
fn leave_returns_to_the_queue_and_tells_the_others() {
    let (mut rooms, mut queue) = match_of_two();
    queue.push(waiting(3));
    rooms.insert(0, Room::new(Some(named(8, "x")), None, None, "x".to_string()));
    let out = leave(addr(1), &mut rooms, &mut queue);
    assert!(rooms[1].player1.is_none());
    assert_eq!(rooms[1].player2.as_ref().unwrap().addr, addr(2));
    assert_eq!(ports(&queue), vec![3, 1]);
    assert_eq!(queue[1].name.as_deref(), Some("Ann"));
    assert_eq!(to(&out), vec![2, 3, 1]);
    assert_eq!(opcodes(&out), vec![14, 20, 20]);
    assert!(out[0].message.d.is_none());
    assert!(matches!(out[1].message.d, Some(EventData::Left { id: 1 })));

    let out = leave(addr(2), &mut rooms, &mut queue);
    assert!(rooms[1].player1.is_none() && rooms[1].player2.is_none());
    assert_eq!(rooms.len(), 2);
    assert_eq!(ports(&queue), vec![3, 1, 2]);
    assert_eq!(to(&out), vec![3, 1, 2]);
    assert_eq!(opcodes(&out), vec![20, 20, 20]);

    let out = leave(addr(3), &mut rooms, &mut queue);
    assert!(out.is_empty());
    assert_eq!(ports(&queue), vec![3, 1, 2]);
}

#[test]
fn lost_connection_of_a_seated_player_scenario() {
    let (mut rooms, mut queue) = match_of_two();
    let out = remove(addr(2), &mut rooms, &mut queue);
    assert!(rooms[0].player2.is_none());
    assert_eq!(rooms[0].player1.as_ref().unwrap().addr, addr(1));
    assert_eq!(out[0].to, addr(1));
    assert_eq!(out[0].message.opcode, 14);
    assert!(out[0].message.d.is_none());
    assert_eq!(to(&out), vec![1, 2]);
    assert_eq!(opcodes(&out), vec![14, 20]);
    assert_eq!(ports(&queue), vec![2]);
}

#[test]
fn lost_connection_of_a_waiting_session_drops_it() {
    let (mut rooms, mut queue) = match_of_two();
    queue.push(waiting(3));
    queue.push(waiting(4));
    let out = remove(addr(3), &mut rooms, &mut queue);
    assert!(out.is_empty());
    assert_eq!(ports(&queue), vec![4]);
    let out = remove(addr(3), &mut rooms, &mut queue);
    assert!(out.is_empty());
    assert_eq!(ports(&queue), vec![4]);
    assert_eq!(rooms.len(), 1);
}

#[test]
fn delete_is_for_the_owner_and_the_right_id() {
    let mut rooms = vec![
        Room::new(Some(named(1, "Ann")), Some(named(2, "Bob")), None, "Ann".to_string()),
        Room::new(Some(named(3, "Cat")), None, None, "Cat".to_string()),
    ];
    let mut queue = vec![waiting(9)];
    assert!(delete(addr(2), 0, &mut rooms, &mut queue).is_empty());
    assert!(delete(addr(1), 1, &mut rooms, &mut queue).is_empty());
    assert!(delete(addr(1), 2, &mut rooms, &mut queue).is_empty());
    assert!(delete(addr(9), 0, &mut rooms, &mut queue).is_empty());
    assert_eq!(rooms.len(), 2);
    assert_eq!(ports(&queue), vec![9]);

    let out = delete(addr(1), 0, &mut rooms, &mut queue);
    assert_eq!(rooms.len(), 1);
    assert_eq!(rooms[0].name, "Cat");
    assert_eq!(ports(&queue), vec![9, 1, 2]);
    assert_eq!(to(&out), vec![9, 1, 2]);
    assert_eq!(opcodes(&out), vec![19, 19, 19]);
    assert!(matches!(out[0].message.d, Some(EventData::RoomDeleted { id: 0 })));

    let out = delete(addr(3), 0, &mut rooms, &mut queue);
    assert!(rooms.is_empty());
    assert_eq!(ports(&queue), vec![9, 1, 2, 3]);
    assert_eq!(to(&out), vec![9, 1, 2, 3]);
}

#[test]
fn listing_counts_seats_and_tells_public_from_private() {
    let rooms = vec![
        Room::new(Some(named(1, "Ann")), Some(named(2, "Bob")), None, "Ann".to_string()),
        Room::new(None, Some(named(3, "Cat")), Some("ABCDE".to_string()), "Cat".to_string()),
        Room::new(None, None, None, "Gone".to_string()),
    ];
    let queue = vec![waiting(7)];
    let out = list(addr(7), &rooms, &queue);
    assert_eq!(to(&out), vec![7]);
    match &out[0].message.d {
        Some(EventData::ListRooms { parties: Some(parties) }) => {
            let seen: Vec<(u8, &str, u8, bool)> = parties
                .iter()
                .map(|p: &Party| (p.id, p.player_name.as_str(), p.players_amount, p.public))
                .collect();
            assert_eq!(seen, vec![(0, "Ann", 2, true), (1, "Cat", 1, false), (2, "Gone", 0, true)]);
        }
        other => panic!("{:?}", other),
    }
    assert!(list(addr(1), &rooms, &queue).is_empty());
    assert!(list(addr(8), &rooms, &queue).is_empty());
    let empty = list(addr(7), &Vec::new(), &queue);
    assert!(matches!(&empty[0].message.d, Some(EventData::ListRooms { parties: Some(p) }) if p.is_empty()));
}

#[test]
fn sweep_closes_the_idle_player_scenario() {
    let (mut rooms, mut queue) = match_of_two();
    queue.push(waiting(3));
    position(addr(1), 0, 100, &mut rooms);
    assert!(sweep(&rooms, &queue, 130).is_empty());
    let out = sweep(&rooms, &queue, 131);
    assert_eq!(to(&out), vec![2]);
    assert_eq!(opcodes(&out), vec![8]);
    assert_eq!(rooms[0].tray[0], 'X');

    let out = remove(addr(2), &mut rooms, &mut queue);
    assert_eq!(out[0].to, addr(1));
    assert_eq!(out[0].message.opcode, 14);
    assert!(rooms[0].player2.is_none());
}

#[test]
fn sweep_announces_empty_rooms_and_skips_half_empty_ones() {
    let mut half = Room::new(Some(named(1, "Ann")), None, None, "Ann".to_string());
    half.duration_turn = Some(0);
    let rooms = vec![
        half,
        Room::new(None, None, None, "Gone".to_string()),
        Room::new(Some(named(4, "Dan")), Some(named(5, "Eve")), None, "Dan".to_string()),
        Room::new(None, None, None, "Gone too".to_string()),
    ];
    let queue = vec![waiting(7), waiting(8)];
    let out = sweep(&rooms, &queue, 1000);
    assert_eq!(to(&out), vec![7, 8, 7, 8]);
    assert_eq!(opcodes(&out), vec![19, 19, 19, 19]);
    assert!(matches!(out[0].message.d, Some(EventData::RoomDeleted { id: 1 })));
    assert!(matches!(out[3].message.d, Some(EventData::RoomDeleted { id: 3 })));
}

#[test]
fn handle_dispatches_by_tag() {
    let mut rooms: Vec<Room> = Vec::new();
    let mut queue = vec![waiting(1), waiting(2)];
    let out = handle(
        Command::CreateRoom {
            addr: addr(1),
            data: EventData::CreateRoom { player_name: "Ann".to_string(), public: true },
        },
        0,
        &mut rooms,
        &mut queue,
    );
    assert_eq!(opcodes(&out), vec![18]);
    let out = handle(
        Command::JoinUser {
            addr: addr(2),
            data: EventData::JoinRoom { player_name: "Bob".to_string(), room_id: 0, room_code: None },
        },
        1,
        &mut rooms,
        &mut queue,
    );
    assert_eq!(opcodes(&out), vec![13, 13]);
    let out = handle(
        Command::MarkPosition { addr: addr(1), data: EventData::MarkPosition { position: 4 } },
        2,
        &mut rooms,
        &mut queue,
    );
    assert_eq!(to(&out), vec![2]);
    assert_eq!(rooms[0].duration_turn, Some(2));
    let out = handle(Command::PlayAgain { addr: addr(1) }, 3, &mut rooms, &mut queue);
    assert_eq!(out.len(), 4);
    assert_eq!(rooms[0].duration_turn, Some(3));
    assert!(handle(Command::ListRooms { addr: addr(1) }, 4, &mut rooms, &mut queue).is_empty());
    let out = handle(Command::LeaveRoom { addr: addr(2) }, 5, &mut rooms, &mut queue);
    assert_eq!(opcodes(&out), vec![14, 20]);
    let out = handle(Command::ListRooms { addr: addr(2) }, 6, &mut rooms, &mut queue);
    assert_eq!(opcodes(&out), vec![17]);
    let out = handle(Command::RemoveUser { addr: addr(2) }, 7, &mut rooms, &mut queue);
    assert!(out.is_empty());
    assert!(queue.is_empty());
    let out = handle(Command::DeleteRoom { addr: addr(1), id: 0 }, 8, &mut rooms, &mut queue);
    assert_eq!(opcodes(&out), vec![19]);
    assert!(rooms.is_empty());
    assert_eq!(ports(&queue), vec![1]);
}

#[test]
fn handle_passes_over_a_payload_of_the_wrong_kind() {
    let (mut rooms, mut queue) = match_of_two();
    queue.push(waiting(3));
    let wrong = [
        Command::JoinUser { addr: addr(3), data: EventData::MarkPosition { position: 0 } },
        Command::MarkPosition { addr: addr(1), data: EventData::EndRoom { status: 1 } },
        Command::CreateRoom { addr: addr(3), data: EventData::DeleteRoom { id: 0 } },
        Command::StartGame { addr: addr(1) },
    ];
    for command in wrong {
        let out = handle(command, 9, &mut rooms, &mut queue);
        assert!(out.is_empty());
        assert_eq!(rooms.len(), 1);
        assert_eq!(rooms[0].tray, [' '; 9]);
        assert_eq!(rooms[0].duration_turn, None);
        assert_eq!(ports(&queue), vec![3]);
    }
}

#[test]
fn app_accepts_handles_and_ticks() {
    let mut app = App::new(AppSettings::default());
    assert!(app.rooms.is_empty() && app.queue.is_empty());
    app.accept(addr(1), 5);
    app.accept(addr(2), 6);
    assert_eq!(ports(&app.queue), vec![1, 2]);
    assert_eq!(app.queue[1].hb, 6);
    assert_eq!(app.queue[1].name, None);
    let out = app.handle(
        Command::CreateRoom {
            addr: addr(1),
            data: EventData::CreateRoom { player_name: "Ann".to_string(), public: false },
        },
        7,
    );
    assert_eq!(to(&out), vec![1, 2]);
    let code = app.rooms[0].code.clone();
    app.handle(
        Command::JoinUser {
            addr: addr(2),
            data: EventData::JoinRoom { player_name: "Bob".to_string(), room_id: 0, room_code: code },
        },
        8,
    );
    assert!(app.queue.is_empty());
    assert!(app.tick(1000).is_empty());
    app.handle(Command::MarkPosition { addr: addr(1), data: EventData::MarkPosition { position: 0 } }, 10);
    assert!(app.tick(40).is_empty());
    let out = app.tick(41);
    assert_eq!(to(&out), vec![2]);
    assert_eq!(opcodes(&out), vec![8]);
}

#[test]
fn room_ids_on_the_wire_wrap_at_a_byte() {
    let mut rooms: Vec<Room> = Vec::new();
    for _ in 0..257 {
        rooms.push(Room::new(None, None, None, String::new()));
    }
    rooms[256].player1 = Some(named(1, "Ann"));
    rooms[256].player2 = Some(named(2, "Bob"));
    let mut queue = vec![waiting(3)];
    let out = leave(addr(1), &mut rooms, &mut queue);
    assert_eq!(opcodes(&out), vec![14, 20, 20]);
    assert!(matches!(out[1].message.d, Some(EventData::Left { id: 0 })));
}
