use crate::commands::rooms::{leave, leave_outcome};
use crate::commands::{find_room, find_waiting, room_of, waiting_index, Lobby};
use crate::json::{text_of, Envelope, EventData, Payload, SocketRequest};
use crate::server::room::Room;
use crate::server::session::{Address, SocketSession};
use crate::server::{parcels, send_message, Delivery, Parcel};
use vstd::prelude::*;
use vstd::string::StringExecFns;

verus! {

/// The name under which a session is announced.
pub open spec fn display_name(name: Option<String>) -> Seq<char> {
    match name {
        Some(name) => name@,
        None => "Anonymous"@,
    }
}

/// The envelope that announces a player. The id is 1 for a player in seat 1
/// and 0 for one in seat 2.
pub open spec fn joined_notice(id: u8, name: Seq<char>) -> Envelope {
    Envelope { opcode: 13, d: Some(Payload::Joined { id, name }) }
}

/// What [`notify_joined`] queues: each of the two players is announced to the
/// other, the one who joined first; nothing while the other seat is empty.
pub open spec fn joined_notices(
    is_player1: bool,
    joined: SocketSession,
    other: Option<SocketSession>,
) -> Seq<Parcel> {
    match other {
        Some(other) => seq![
            Parcel {
                to: other.addr,
                message: joined_notice(
                    if is_player1 {
                        1u8
                    } else {
                        0u8
                    },
                    display_name(joined.name),
                ),
            },
            Parcel {
                to: joined.addr,
                message: joined_notice(
                    if is_player1 {
                        0u8
                    } else {
                        1u8
                    },
                    display_name(other.name),
                ),
            },
        ],
        None => Seq::empty(),
    }
}

/// The session under a new name.
pub open spec fn named(session: SocketSession, name: String) -> SocketSession {
    SocketSession { name: Some(name), ..session }
}

/// The room with the session in its first empty seat; the room itself where
/// both seats are taken.
pub open spec fn seated(room: Room, session: SocketSession) -> Room {
    if room.player1 is None {
        Room { player1: Some(session), ..room }
    } else if room.player2 is None {
        Room { player2: Some(session), ..room }
    } else {
        room
    }
}

/// What seating the session in the room queues.
pub open spec fn seating_notices(room: Room, session: SocketSession) -> Seq<Parcel> {
    if room.player1 is None {
        joined_notices(true, session, room.player2)
    } else if room.player2 is None {
        joined_notices(false, session, room.player1)
    } else {
        Seq::empty()
    }
}

/// What a join request does. It is dropped, and nothing is said, where the
/// address is seated already, no room has the id, the code is not the room's,
/// both seats are taken, or no session waits at the address.
pub open spec fn join_outcome(
    rooms: Seq<Room>,
    queue: Seq<SocketSession>,
    addr: Address,
    player_name: String,
    room_id: u8,
    room_code: Option<String>,
) -> Lobby {
    if room_of(rooms, addr) is Some || room_id >= rooms.len() {
        Lobby::untouched(rooms, queue)
    } else if text_of(room_code) != text_of(rooms[room_id as int].code) || !rooms[room_id as int].available() {
        Lobby::untouched(rooms, queue)
    } else {
        match waiting_index(queue, addr) {
            None => Lobby::untouched(rooms, queue),
            Some(at) => Lobby {
                rooms: rooms.update(
                    room_id as int,
                    seated(rooms[room_id as int], named(queue[at], player_name)),
                ),
                queue: queue.remove(at),
                sent: seating_notices(rooms[room_id as int], named(queue[at], player_name)),
            },
        }
    }
}

/// What the loss of a connection does: a seated session leaves its room as
/// if it had asked to, and a waiting one is dropped from the queue.
pub open spec fn remove_outcome(rooms: Seq<Room>, queue: Seq<SocketSession>, addr: Address) -> Lobby {
    if room_of(rooms, addr) is Some {
        leave_outcome(rooms, queue, addr)
    } else {
        match waiting_index(queue, addr) {
            Some(at) => Lobby { rooms, queue: queue.remove(at), sent: Seq::empty() },
            None => Lobby::untouched(rooms, queue),
        }
    }
}

/// Whether two optional codes read the same.
pub fn same_code(left: &Option<String>, right: &Option<String>) -> (same: bool)
    ensures
        same == (text_of(*left) == text_of(*right)),
{
    match (left, right) {
        (Some(a), Some(b)) => *a == *b,
        (None, None) => true,
        _ => false,
    }
}

/// Moves a session from the waiting queue into a seat of the room with the given id. The request is dropped
/// without a word where the code is not the room's.
pub fn join(
    addr: Address,
    player_name: String,
    room_id: u8,
    room_code: Option<String>,
    rooms: &mut Vec<Room>,
    queue: &mut Vec<SocketSession>,
) -> (out: Vec<Delivery>)
    ensures
        final(rooms)@ == join_outcome(old(rooms)@, old(queue)@, addr, player_name, room_id, room_code).rooms,
        final(queue)@ == join_outcome(old(rooms)@, old(queue)@, addr, player_name, room_id, room_code).queue,
        parcels(out@) == join_outcome(old(rooms)@, old(queue)@, addr, player_name, room_id, room_code).sent,
        room_id < old(rooms)@.len() && text_of(room_code) != text_of(old(rooms)@[room_id as int].code)
            ==> final(rooms)@ == old(rooms)@ && final(queue)@ == old(queue)@ && out@.len() == 0,
{
    let mut out: Vec<Delivery> = Vec::new();
    assert(parcels(out@) =~= Seq::empty());
    if find_room(rooms, addr).is_some() {
        return out;
    }
    let id: usize = room_id as usize;
    if id >= rooms.len() {
        return out;
    }
    if !same_code(&room_code, &rooms[id].code) || !rooms[id].is_available() {
        return out;
    }
    match get_session(addr, queue) {
        None => out,
        Some(session) => {
            let mut session = session;
            session.name = Some(player_name);
            let room = &mut rooms[id];
            let _ = join_room(session, room, &mut out);
            out
        },
    }
}

/// Removes the session of a connection that is gone.
pub fn remove(addr: Address, rooms: &mut Vec<Room>, queue: &mut Vec<SocketSession>) -> (out: Vec<Delivery>)
    ensures
        final(rooms)@ == remove_outcome(old(rooms)@, old(queue)@, addr).rooms,
        final(queue)@ == remove_outcome(old(rooms)@, old(queue)@, addr).queue,
        parcels(out@) == remove_outcome(old(rooms)@, old(queue)@, addr).sent,
{
    if find_room(rooms, addr).is_some() {
        leave(addr, rooms, queue)
    } else {
        let _ = get_session(addr, queue);
        let out: Vec<Delivery> = Vec::new();
        assert(parcels(out@) =~= Seq::empty());
        out
    }
}

/// Takes the session at `addr` out of the waiting queue.
pub fn get_session(addr: Address, queue: &mut Vec<SocketSession>) -> (session: Option<SocketSession>)
    ensures
        match waiting_index(old(queue)@, addr) {
            Some(at) => session == Some(old(queue)@[at]) && final(queue)@ == old(queue)@.remove(at),
            None => session is None && final(queue)@ == old(queue)@,
        },
{
    match find_waiting(queue, addr) {
        Some(idx) => Some(queue.remove(idx)),
        None => None,
    }
}

/// Seats the session in the first empty seat of the room and announces the two
/// players to each other. Where both seats are taken the room stays as it is
/// and the session is handed back.
pub fn join_room(session: SocketSession, room: &mut Room, out: &mut Vec<Delivery>) -> (back: Option<
    SocketSession,
>)
    ensures
        *final(room) == seated(*old(room), session),
        parcels(final(out)@) == parcels(old(out)@) + seating_notices(*old(room), session),
        back == if old(room).available() {
            None
        } else {
            Some(session)
        },
{
    if room.player1.is_none() {
        room.player1 = Some(session);
        notify_joined(true, room.player1.as_ref().unwrap(), room.player2.as_ref(), out);
        None
    } else if room.player2.is_none() {
        room.player2 = Some(session);
        notify_joined(false, room.player2.as_ref().unwrap(), room.player1.as_ref(), out);
        None
    } else {
        assert(parcels(out@) =~= parcels(old(out)@) + seating_notices(*old(room), session));
        Some(session)
    }
}

/// The name of a session, or the name of one that has none.
fn name_or_anonymous(session: &SocketSession) -> (name: String)
    ensures
        name@ == display_name(session.name),
{
    match &session.name {
        Some(name) => name.clone(),
        None => String::from_str("Anonymous"),
    }
}

/// Announces two players of a room to each other, where there are two.
pub fn notify_joined(
    is_player1: bool,
    joined_player: &SocketSession,
    other_player: Option<&SocketSession>,
    out: &mut Vec<Delivery>,
)
    ensures
        parcels(final(out)@) == parcels(old(out)@) + joined_notices(
            is_player1,
            *joined_player,
            match other_player {
                Some(other) => Some(*other),
                None => None,
            },
        ),
{
    let other_player = match other_player {
        Some(value) => value,
        None => {
            assert(parcels(out@) =~= parcels(old(out)@) + Seq::<Parcel>::empty());
            return ;
        },
    };
    send_message(
        out,
        other_player.addr,
        SocketRequest::new(
            13,
            Some(
                EventData::Joined {
                    id: if is_player1 {
                        1
                    } else {
                        0
                    },
                    name: name_or_anonymous(joined_player),
                },
            ),
        ),
    );
    send_message(
        out,
        joined_player.addr,
        SocketRequest::new(
            13,
            Some(
                EventData::Joined {
                    id: if is_player1 {
                        0
                    } else {
                        1
                    },
                    name: name_or_anonymous(other_player),
                },
            ),
        ),
    );
    assert(parcels(out@) =~= parcels(old(out)@) + joined_notices(
        is_player1,
        *joined_player,
        Some(*other_player),
    ));
}

} // verus!
