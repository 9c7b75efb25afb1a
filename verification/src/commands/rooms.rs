use crate::commands::users::{get_session, named};
use crate::commands::{
    broadcast, find_room, find_waiting, lemma_room_of, notify_connections, room_of, waiting_index,
    Lobby,
};
use crate::json::{parties_view, Envelope, EventData, Party, Payload, SocketRequest};
use crate::server::room::{is_player, seat_holds, Room};
use crate::server::session::{Address, SocketSession};
use crate::server::{parcels, send_message, Delivery, Parcel};
use crate::text::push_char;
use vstd::prelude::*;

verus! {

/// The number of characters of a join code.
pub const CODE_LENGTH: usize = 5;

/// The id under which a room goes over the wire: its index, as far as a byte holds it.
pub open spec fn wire_id(idx: int) -> u8 {
    (idx % 256) as u8
}

/// An upper-case letter or a digit.
pub open spec fn is_code_char(c: char) -> bool {
    ('A' <= c && c <= 'Z') || ('0' <= c && c <= '9')
}

/// Five characters, each an upper-case letter or a digit.
pub open spec fn is_room_code(code: Seq<char>) -> bool {
    code.len() == CODE_LENGTH && forall|i: int| 0 <= i < code.len() ==> is_code_char(#[trigger] code[i])
}

/// The code suits the kind of room: none for a public room, a join code for a
/// private one.
pub open spec fn code_fits(public: bool, code: Option<String>) -> bool {
    match code {
        None => public,
        Some(code) => !public && is_room_code(code@),
    }
}

/// One of the 62 bytes that stand for an ASCII letter or digit.
pub open spec fn is_alphanumeric(byte: u8) -> bool {
    (0x41 <= byte <= 0x5a) || (0x61 <= byte <= 0x7a) || (0x30 <= byte <= 0x39)
}

/// The envelope that tells the owner of a private room its code.
pub open spec fn owner_code_notice(code: Seq<char>) -> Envelope {
    Envelope { opcode: 21, d: Some(Payload::OwnerCode { code }) }
}

/// The envelope that announces a room.
pub open spec fn room_created_notice(id: u8, player_name: Seq<char>, public: bool) -> Envelope {
    Envelope {
        opcode: 18,
        d: Some(Payload::RoomCreated { id, player_name, players_amount: 1, public }),
    }
}

/// The envelope that tells a player that the other one has left.
pub open spec fn left_notice() -> Envelope {
    Envelope { opcode: 14, d: None }
}

/// The envelope that tells the waiting sessions that the players of a room have changed.
pub open spec fn players_changed_notice(id: u8) -> Envelope {
    Envelope { opcode: 20, d: Some(Payload::Left { id }) }
}

/// The envelope that tells the waiting sessions that a room is gone.
pub open spec fn room_deleted_notice(id: u8) -> Envelope {
    Envelope { opcode: 19, d: Some(Payload::RoomDeleted { id }) }
}

/// What creating a room with the given code does: the session at `addr` leaves
/// the waiting queue under its new name and takes seat 1 of a new room, the
/// last of the list. The owner of a private room is told the code, and then
/// every session that still waits is told of the room. Nothing happens where
/// no session waits at the address.
pub open spec fn create_outcome(
    rooms: Seq<Room>,
    queue: Seq<SocketSession>,
    addr: Address,
    player_name: String,
    code: Option<String>,
) -> Lobby {
    match waiting_index(queue, addr) {
        None => Lobby::untouched(rooms, queue),
        Some(at) => Lobby {
            rooms: rooms.push(
                Room::fresh(Some(named(queue[at], player_name)), None, code, player_name),
            ),
            queue: queue.remove(at),
            sent: (match code {
                Some(code) => seq![Parcel { to: queue[at].addr, message: owner_code_notice(code@) }],
                None => Seq::empty(),
            }) + broadcast(
                queue.remove(at),
                room_created_notice(wire_id(rooms.len() as int), player_name@, code is None),
            ),
        },
    }
}

/// The room without the session at `addr`, which leaves seat 1 if it sits
/// there, and seat 2 otherwise.
pub open spec fn vacated(room: Room, addr: Address) -> Room {
    if seat_holds(room.player1, addr) {
        Room { player1: None, ..room }
    } else {
        Room { player2: None, ..room }
    }
}

/// The session that leaves the room with [`vacated`].
pub open spec fn leaver(room: Room, addr: Address) -> SocketSession {
    if seat_holds(room.player1, addr) {
        room.player1->0
    } else {
        room.player2->0
    }
}

/// The occupant of the seat that the session at `addr` does not leave.
pub open spec fn opponent(room: Room, addr: Address) -> Option<SocketSession> {
    if seat_holds(room.player1, addr) {
        room.player2
    } else {
        room.player1
    }
}

/// What leaving a room does: the session at `addr` goes from its seat to the
/// end of the waiting queue, the other occupant is told, and then every
/// waiting session is told that the room's players have changed. Nothing
/// happens where the address is not seated.
pub open spec fn leave_outcome(rooms: Seq<Room>, queue: Seq<SocketSession>, addr: Address) -> Lobby {
    match room_of(rooms, addr) {
        None => Lobby::untouched(rooms, queue),
        Some(idx) => Lobby {
            rooms: rooms.update(idx, vacated(rooms[idx], addr)),
            queue: queue.push(leaver(rooms[idx], addr)),
            sent: (match opponent(rooms[idx], addr) {
                Some(other) => seq![Parcel { to: other.addr, message: left_notice() }],
                None => Seq::empty(),
            }) + broadcast(queue.push(leaver(rooms[idx], addr)), players_changed_notice(wire_id(idx))),
        },
    }
}

/// The sessions that a deleted room releases: seat 1, then seat 2.
pub open spec fn released(room: Room) -> Seq<SocketSession> {
    (match room.player1 {
        Some(session) => seq![session],
        None => Seq::empty(),
    }) + (match room.player2 {
        Some(session) => seq![session],
        None => Seq::empty(),
    })
}

/// What deleting a room does, where the session at `addr` holds seat 1 of the
/// room with that id: the room leaves the list, its occupants go to the end of
/// the waiting queue, and every waiting session is told. Otherwise nothing
/// happens.
pub open spec fn delete_outcome(rooms: Seq<Room>, queue: Seq<SocketSession>, addr: Address, id: u8) -> Lobby {
    if id < rooms.len() && seat_holds(rooms[id as int].player1, addr) {
        Lobby {
            rooms: rooms.remove(id as int),
            queue: queue + released(rooms[id as int]),
            sent: broadcast(queue + released(rooms[id as int]), room_deleted_notice(id)),
        }
    } else {
        Lobby::untouched(rooms, queue)
    }
}

/// The number of taken seats of a room.
pub open spec fn players_amount(room: Room) -> u8 {
    if room.player1 is Some && room.player2 is Some {
        2
    } else if room.player1 is Some || room.player2 is Some {
        1
    } else {
        0
    }
}

/// The listing entry of the room at index `idx`.
pub open spec fn party_of(room: Room, idx: int) -> Party {
    Party {
        id: wire_id(idx),
        player_name: room.name,
        players_amount: players_amount(room),
        public: room.code is None,
    }
}

/// One entry for each room, in the order of the list.
pub open spec fn listing(rooms: Seq<Room>) -> Seq<Party> {
    Seq::new(rooms.len(), |i: int| party_of(rooms[i], i))
}

/// The envelope that answers a listing request.
pub open spec fn listing_notice(rooms: Seq<Room>) -> Envelope {
    Envelope { opcode: 17, d: Some(Payload::ListRooms { parties: Some(parties_view(listing(rooms))) }) }
}

/// What a listing request is answered with: the list of rooms, for the session
/// that asked alone, and only where it waits.
pub open spec fn list_reply(rooms: Seq<Room>, queue: Seq<SocketSession>, addr: Address) -> Seq<Parcel> {
    match waiting_index(queue, addr) {
        Some(at) => seq![Parcel { to: queue[at].addr, message: listing_notice(rooms) }],
        None => Seq::empty(),
    }
}

/// Creates a room with the given join code, or a public room where there is none.
pub fn create_with_code(
    addr: Address,
    player_name: String,
    code: Option<String>,
    rooms: &mut Vec<Room>,
    queue: &mut Vec<SocketSession>,
) -> (out: Vec<Delivery>)
    ensures
        final(rooms)@ == create_outcome(old(rooms)@, old(queue)@, addr, player_name, code).rooms,
        final(queue)@ == create_outcome(old(rooms)@, old(queue)@, addr, player_name, code).queue,
        parcels(out@) == create_outcome(old(rooms)@, old(queue)@, addr, player_name, code).sent,
{
    let mut out: Vec<Delivery> = Vec::new();
    assert(parcels(out@) =~= Seq::empty());
    let session = match get_session(addr, queue) {
        Some(session) => session,
        None => {
            return out;
        },
    };
    let mut session = session;
    session.name = Some(player_name.clone());
    let room_id: usize = rooms.len();
    let public = code.is_none();
    let owner = session.addr;
    let notice = match &code {
        Some(code) => Some(SocketRequest::new(21, Some(EventData::OwnerCode { code: code.clone() }))),
        None => None,
    };
    rooms.push(Room::new(Some(session), None, code, player_name.clone()));
    if let Some(notice) = notice {
        send_message(&mut out, owner, notice);
    }
    notify_connections(
        SocketRequest::new(
            18,
            Some(
                EventData::RoomCreated {
                    id: (room_id % 256) as u8,
                    player_name,
                    players_amount: 1,
                    public,
                },
            ),
        ),
        queue,
        &mut out,
    );
    assert(parcels(out@) =~= create_outcome(old(rooms)@, old(queue)@, addr, player_name, code).sent);
    out
}

/// Creates a room for the session at `addr`: a public one, or a private one
/// with a new join code.
pub fn create(
    addr: Address,
    player_name: String,
    public: bool,
    rooms: &mut Vec<Room>,
    queue: &mut Vec<SocketSession>,
) -> (out: Vec<Delivery>)
    ensures
        exists|code: Option<String>|
            {
                &&& code_fits(public, code)
                &&& final(rooms)@ == (#[trigger] create_outcome(
                    old(rooms)@,
                    old(queue)@,
                    addr,
                    player_name,
                    code,
                )).rooms
                &&& final(queue)@ == create_outcome(old(rooms)@, old(queue)@, addr, player_name, code).queue
                &&& parcels(out@) == create_outcome(old(rooms)@, old(queue)@, addr, player_name, code).sent
            },
        waiting_index(old(queue)@, addr) is Some ==> final(rooms)@.len() == old(rooms)@.len() + 1
            && code_fits(public, final(rooms)@.last().code),
        waiting_index(old(queue)@, addr) is None ==> final(rooms)@ == old(rooms)@ && final(queue)@
            == old(queue)@,
{
    let code = generate_room_code(public);
    let ghost witness = code;
    let out = create_with_code(addr, player_name, code, rooms, queue);
    assert(code_fits(public, witness));
    out
}

/// Takes the session at `addr` out of its seat and back into the waiting queue.
pub fn leave(addr: Address, rooms: &mut Vec<Room>, queue: &mut Vec<SocketSession>) -> (out: Vec<Delivery>)
    ensures
        final(rooms)@ == leave_outcome(old(rooms)@, old(queue)@, addr).rooms,
        final(queue)@ == leave_outcome(old(rooms)@, old(queue)@, addr).queue,
        parcels(out@) == leave_outcome(old(rooms)@, old(queue)@, addr).sent,
{
    let mut out: Vec<Delivery> = Vec::new();
    assert(parcels(out@) =~= Seq::empty());
    let idx = match find_room(rooms, addr) {
        Some(idx) => idx,
        None => {
            return out;
        },
    };
    proof {
        lemma_room_of(rooms@, addr);
    }
    let room = &mut rooms[idx];
    let first = is_player(&room.player1, addr);
    let gone = if first {
        room.player1.take()
    } else {
        room.player2.take()
    };
    if let Some(session) = gone {
        queue.push(session);
    }
    let other = if first {
        &room.player2
    } else {
        &room.player1
    };
    if let Some(player) = other {
        send_message(&mut out, player.addr, SocketRequest { opcode: 14, d: None });
    }
    notify_connections(
        SocketRequest::new(20, Some(EventData::Left { id: (idx % 256) as u8 })),
        queue,
        &mut out,
    );
    assert(rooms@ =~= leave_outcome(old(rooms)@, old(queue)@, addr).rooms);
    assert(parcels(out@) =~= leave_outcome(old(rooms)@, old(queue)@, addr).sent);
    out
}

/// Deletes the room with the given id for its owner, the session in seat 1.
pub fn delete(addr: Address, id: u8, rooms: &mut Vec<Room>, queue: &mut Vec<SocketSession>) -> (out: Vec<
    Delivery,
>)
    ensures
        final(rooms)@ == delete_outcome(old(rooms)@, old(queue)@, addr, id).rooms,
        final(queue)@ == delete_outcome(old(rooms)@, old(queue)@, addr, id).queue,
        parcels(out@) == delete_outcome(old(rooms)@, old(queue)@, addr, id).sent,
{
    let mut out: Vec<Delivery> = Vec::new();
    assert(parcels(out@) =~= Seq::empty());
    let idx: usize = id as usize;
    if idx >= rooms.len() || !is_player(&rooms[idx].player1, addr) {
        return out;
    }
    let room = rooms.remove(idx);
    let Room { player1, player2, .. } = room;
    if let Some(player1) = player1 {
        queue.push(player1);
    }
    if let Some(player2) = player2 {
        queue.push(player2);
    }
    assert(queue@ =~= old(queue)@ + released(old(rooms)@[id as int]));
    notify_connections(SocketRequest::new(19, Some(EventData::RoomDeleted { id })), queue, &mut out);
    assert(parcels(out@) =~= delete_outcome(old(rooms)@, old(queue)@, addr, id).sent);
    out
}

/// Answers a waiting session with the list of rooms.
pub fn list(addr: Address, rooms: &Vec<Room>, queue: &Vec<SocketSession>) -> (out: Vec<Delivery>)
    ensures
        parcels(out@) == list_reply(rooms@, queue@, addr),
{
    let mut out: Vec<Delivery> = Vec::new();
    assert(parcels(out@) =~= Seq::empty());
    let at = match find_waiting(queue, addr) {
        Some(at) => at,
        None => {
            return out;
        },
    };
    let mut parties: Vec<Party> = Vec::new();
    let mut idx: usize = 0;
    while idx < rooms.len()
        invariant
            idx <= rooms@.len(),
            parties@ == listing(rooms@).take(idx as int),
        decreases rooms@.len() - idx,
    {
        let room = &rooms[idx];
        let amount: u8 = if room.player1.is_some() && room.player2.is_some() {
            2
        } else if room.player1.is_some() || room.player2.is_some() {
            1
        } else {
            0
        };
        parties.push(
            Party {
                id: (idx % 256) as u8,
                player_name: room.name.clone(),
                players_amount: amount,
                public: room.code.is_none(),
            },
        );
        idx += 1;
        assert(parties@ =~= listing(rooms@).take(idx as int));
    }
    assert(parties@ =~= listing(rooms@));
    send_message(
        &mut out,
        queue[at].addr,
        SocketRequest::new(17, Some(EventData::ListRooms { parties: Some(parties) })),
    );
    assert(parcels(out@) =~= list_reply(rooms@, queue@, addr));
    out
}

/// The upper-case form of an ASCII letter; any other byte as it is.
fn to_upper(byte: u8) -> (upper: u8)
    ensures
        upper == if 0x61 <= byte <= 0x7a {
            (byte - 0x20) as u8
        } else {
            byte
        },
{
    if 0x61 <= byte && byte <= 0x7a {
        byte - 0x20
    } else {
        byte
    }
}

/// The join code of a new room: none for a public room; for a private one,
/// five random characters, each an upper-case letter or a digit.
pub fn generate_room_code(public: bool) -> (code: Option<String>)
    ensures
        code_fits(public, code),
        public ==> code is None,
        !public ==> code is Some && is_room_code(code->0@),
{
    if public {
        None
    } else {
        let mut code = String::new();
        let mut n: usize = 0;
        while n < CODE_LENGTH
            invariant
                n <= CODE_LENGTH,
                code@.len() == n,
                forall|i: int| 0 <= i < code@.len() ==> is_code_char(#[trigger] code@[i]),
            decreases CODE_LENGTH - n,
        {
            let byte = to_upper(sample_alphanumeric());
            push_char(&mut code, byte as char);
            n += 1;
        }
        Some(code)
    }
}

/// `rand::Rng::sample` on the thread's generator with the distribution
/// `rand::distributions::Alphanumeric`: a byte drawn from the 62 ASCII letters
/// and digits. Which one is left open.
#[verifier::external_body]
fn sample_alphanumeric() -> (byte: u8)
    ensures
        is_alphanumeric(byte),
{
    rand::Rng::sample(&mut rand::thread_rng(), rand::distributions::Alphanumeric)
}

} // verus!
