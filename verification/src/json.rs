use crate::server::session::Address;
use vstd::prelude::*;

verus! {

/// One room as a listing shows it.
#[derive(Debug)]
pub struct Party {
    pub id: u8,
    pub player_name: String,
    pub players_amount: u8,
    pub public: bool,
}

/// The typed payload of a wire message. Which variant belongs to a message
/// follows from its opcode.
#[derive(Debug)]
pub enum EventData {
    /// opcode 10: a move, by linear cell index.
    MarkPosition { position: usize },
    /// opcode 11: 1 = seat 1 won, 2 = seat 2 won, 3 = draw.
    EndRoom { status: u8 },
    /// opcode 12
    JoinRoom { player_name: String, room_id: u8, room_code: Option<String> },
    /// opcode 13
    Joined { id: u8, name: String },
    /// opcode 15
    CreateRoom { player_name: String, public: bool },
    /// opcode 16
    DeleteRoom { id: u8 },
    /// opcode 17
    ListRooms { parties: Option<Vec<Party>> },
    /// opcode 18
    RoomCreated { id: u8, player_name: String, players_amount: u8, public: bool },
    /// opcode 19
    RoomDeleted { id: u8 },
    /// opcode 20, with the seat count
    RoomPlayers { id: u8, amount: u8 },
    /// opcode 20
    Left { id: u8 },
    /// opcode 21
    OwnerCode { code: String },
    /// opcode 1007
    Message(String),
}

/// What an [`EventData`] says, with every string as a sequence of characters.
pub enum Payload {
    MarkPosition { position: usize },
    EndRoom { status: u8 },
    JoinRoom { player_name: Seq<char>, room_id: u8, room_code: Option<Seq<char>> },
    Joined { id: u8, name: Seq<char> },
    CreateRoom { player_name: Seq<char>, public: bool },
    DeleteRoom { id: u8 },
    ListRooms { parties: Option<Seq<Payload>> },
    RoomCreated { id: u8, player_name: Seq<char>, players_amount: u8, public: bool },
    RoomDeleted { id: u8 },
    RoomPlayers { id: u8, amount: u8 },
    Left { id: u8 },
    OwnerCode { code: Seq<char> },
    Message(Seq<char>),
}

/// The characters of an optional string.
pub open spec fn text_of(s: Option<String>) -> Option<Seq<char>> {
    match s {
        Some(s) => Some(s@),
        None => None,
    }
}

impl View for Party {
    type V = Payload;

    /// A listing entry reads as the announcement of its room.
    open spec fn view(&self) -> Payload {
        Payload::RoomCreated {
            id: self.id,
            player_name: self.player_name@,
            players_amount: self.players_amount,
            public: self.public,
        }
    }
}

impl Clone for Party {
    fn clone(&self) -> (res: Self)
        ensures
            res == *self,
    {
        Party {
            id: self.id,
            player_name: self.player_name.clone(),
            players_amount: self.players_amount,
            public: self.public,
        }
    }
}

/// The views of the entries of a listing, in order.
pub open spec fn parties_view(list: Seq<Party>) -> Seq<Payload> {
    Seq::new(list.len(), |i: int| list[i]@)
}

impl View for EventData {
    type V = Payload;

    open spec fn view(&self) -> Payload {
        match self {
            EventData::MarkPosition { position } => Payload::MarkPosition { position: *position },
            EventData::EndRoom { status } => Payload::EndRoom { status: *status },
            EventData::JoinRoom { player_name, room_id, room_code } => Payload::JoinRoom {
                player_name: player_name@,
                room_id: *room_id,
                room_code: text_of(*room_code),
            },
            EventData::Joined { id, name } => Payload::Joined { id: *id, name: name@ },
            EventData::CreateRoom { player_name, public } => Payload::CreateRoom {
                player_name: player_name@,
                public: *public,
            },
            EventData::DeleteRoom { id } => Payload::DeleteRoom { id: *id },
            EventData::ListRooms { parties } => Payload::ListRooms {
                parties: match parties {
                    Some(list) => Some(parties_view(list@)),
                    None => None,
                },
            },
            EventData::RoomCreated { id, player_name, players_amount, public } => Payload::RoomCreated {
                id: *id,
                player_name: player_name@,
                players_amount: *players_amount,
                public: *public,
            },
            EventData::RoomDeleted { id } => Payload::RoomDeleted { id: *id },
            EventData::RoomPlayers { id, amount } => Payload::RoomPlayers { id: *id, amount: *amount },
            EventData::Left { id } => Payload::Left { id: *id },
            EventData::OwnerCode { code } => Payload::OwnerCode { code: code@ },
            EventData::Message(text) => Payload::Message(text@),
        }
    }
}

impl Clone for EventData {
    fn clone(&self) -> (res: Self)
        ensures
            res@ == self@,
    {
        match self {
            EventData::MarkPosition { position } => EventData::MarkPosition { position: *position },
            EventData::EndRoom { status } => EventData::EndRoom { status: *status },
            EventData::JoinRoom { player_name, room_id, room_code } => EventData::JoinRoom {
                player_name: player_name.clone(),
                room_id: *room_id,
                room_code: match room_code {
                    Some(code) => Some(code.clone()),
                    None => None,
                },
            },
            EventData::Joined { id, name } => EventData::Joined { id: *id, name: name.clone() },
            EventData::CreateRoom { player_name, public } => EventData::CreateRoom {
                player_name: player_name.clone(),
                public: *public,
            },
            EventData::DeleteRoom { id } => EventData::DeleteRoom { id: *id },
            EventData::ListRooms { parties } => match parties {
                Some(list) => {
                    let mut copy: Vec<Party> = Vec::new();
                    let mut i: usize = 0;
                    while i < list.len()
                        invariant
                            i <= list@.len(),
                            copy@ == list@.take(i as int),
                        decreases list@.len() - i,
                    {
                        copy.push(list[i].clone());
                        i += 1;
                        assert(copy@ =~= list@.take(i as int));
                    }
                    assert(copy@ =~= list@);
                    EventData::ListRooms { parties: Some(copy) }
                },
                None => EventData::ListRooms { parties: None },
            },
            EventData::RoomCreated { id, player_name, players_amount, public } => EventData::RoomCreated {
                id: *id,
                player_name: player_name.clone(),
                players_amount: *players_amount,
                public: *public,
            },
            EventData::RoomDeleted { id } => EventData::RoomDeleted { id: *id },
            EventData::RoomPlayers { id, amount } => EventData::RoomPlayers { id: *id, amount: *amount },
            EventData::Left { id } => EventData::Left { id: *id },
            EventData::OwnerCode { code } => EventData::OwnerCode { code: code.clone() },
            EventData::Message(text) => EventData::Message(text.clone()),
        }
    }
}

/// The wire message: an opcode and, where the opcode calls for one, a payload.
#[derive(Debug)]
pub struct SocketRequest {
    pub opcode: u32,
    pub d: Option<EventData>,
}

/// What a [`SocketRequest`] says.
pub struct Envelope {
    pub opcode: u32,
    pub d: Option<Payload>,
}

impl View for SocketRequest {
    type V = Envelope;

    open spec fn view(&self) -> Envelope {
        Envelope {
            opcode: self.opcode,
            d: match self.d {
                Some(data) => Some(data@),
                None => None,
            },
        }
    }
}

impl SocketRequest {
    /// The message with the given opcode and payload.
    pub fn new(opcode: u32, d: Option<EventData>) -> (req: Self)
        ensures
            req.opcode == opcode,
            req.d == d,
    {
        Self { opcode, d }
    }
}

impl Clone for SocketRequest {
    fn clone(&self) -> (res: Self)
        ensures
            res@ == self@,
    {
        SocketRequest {
            opcode: self.opcode,
            d: match &self.d {
                Some(data) => Some(data.clone()),
                None => None,
            },
        }
    }
}

/// A request on its way to the command actor, tagged with the address of the
/// connection that it came from.
#[derive(Debug)]
pub enum Command {
    JoinUser { addr: Address, data: EventData },
    RemoveUser { addr: Address },
    MarkPosition { addr: Address, data: EventData },
    CreateRoom { addr: Address, data: EventData },
    DeleteRoom { addr: Address, id: u8 },
    ListRooms { addr: Address },
    LeaveRoom { addr: Address },
    StartGame { addr: Address },
    PlayAgain { addr: Address },
}

} // verus!
