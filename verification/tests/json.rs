use websocket::json::{EventData, Party, SocketRequest};

#[test]
fn new_envelope_holds_what_it_is_given() {
    let request = SocketRequest::new(21, Some(EventData::OwnerCode { code: "AB12C".to_string() }));
    assert_eq!(request.opcode, 21);
    assert!(matches!(&request.d, Some(EventData::OwnerCode { code }) if code == "AB12C"));
    let request = SocketRequest::new(8, None);
    assert_eq!(request.opcode, 8);
    assert!(request.d.is_none());
}

#[test]
fn clone_copies_every_variant() {
    let party = Party { id: 2, player_name: "Ann".to_string(), players_amount: 1, public: false };
    let all = vec![
        EventData::MarkPosition { position: 3 },
        EventData::EndRoom { status: 2 },
        EventData::JoinRoom { player_name: "a".to_string(), room_id: 1, room_code: Some("c".to_string()) },
        EventData::JoinRoom { player_name: "a".to_string(), room_id: 1, room_code: None },
        EventData::Joined { id: 1, name: "n".to_string() },
        EventData::CreateRoom { player_name: "p".to_string(), public: true },
        EventData::DeleteRoom { id: 7 },
        EventData::ListRooms { parties: None },
        EventData::ListRooms { parties: Some(vec![party.clone(), party]) },
        EventData::RoomCreated { id: 1, player_name: "p".to_string(), players_amount: 2, public: false },
        EventData::RoomDeleted { id: 9 },
        EventData::RoomPlayers { id: 1, amount: 2 },
        EventData::Left { id: 4 },
        EventData::OwnerCode { code: "XYZ12".to_string() },
        EventData::Message("hello".to_string()),
    ];
    for (opcode, data) in all.into_iter().enumerate() {
        let request = SocketRequest::new(opcode as u32, Some(data));
        let copy = request.clone();
        assert_eq!(format!("{:?}", copy), format!("{:?}", request));
    }
}
