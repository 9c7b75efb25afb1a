use crate::commands::ownership::{lemma_match_keeps_lobby, lobby_wf};
use crate::commands::users::{get_session, join_room, named, seated, seating_notices};
use crate::commands::{find_room, room_of, waiting_index, Lobby};
use crate::json::{Envelope, EventData, Payload, SocketRequest};
use crate::server::room::{is_player, seat_holds, Room};
use crate::server::session::{Address, SocketSession};
use crate::server::{parcels, send_message, Delivery, Parcel};
use vstd::prelude::*;
use vstd::string::StringExecFns;

verus! {

/// The envelope that tells a player who asks for a match that it has one.
pub open spec fn in_match_notice() -> Envelope {
    Envelope { opcode: 1011, d: Some(Payload::Message("player already in match"@)) }
}

/// A room that matchmaking can fill: a public one with a free seat.
pub open spec fn is_open(room: Room) -> bool {
    room.code is None && room.available()
}

/// The index of the first public room with a free seat.
pub open spec fn open_room(rooms: Seq<Room>) -> Option<int>
    decreases rooms.len(),
{
    if rooms.len() == 0 {
        None
    } else {
        match open_room(rooms.drop_last()) {
            Some(idx) => Some(idx),
            None => if is_open(rooms.last()) {
                Some(rooms.len() - 1)
            } else {
                None
            },
        }
    }
}

/// [`open_room`] names a public room with a free seat that comes before every
/// other; it names none only where there is none.
pub proof fn lemma_open_room(rooms: Seq<Room>)
    ensures
        match open_room(rooms) {
            Some(idx) => 0 <= idx < rooms.len() && is_open(rooms[idx]) && forall|j: int|
                0 <= j < idx ==> !is_open(#[trigger] rooms[j]),
            None => forall|j: int| 0 <= j < rooms.len() ==> !is_open(#[trigger] rooms[j]),
        },
    decreases rooms.len(),
{
    if rooms.len() > 0 {
        lemma_open_room(rooms.drop_last());
        assert forall|j: int| 0 <= j < rooms.len() - 1 implies rooms.drop_last()[j] == rooms[j] by {}
    }
}

proof fn lemma_open_room_prefix(rooms: Seq<Room>, n: int)
    requires
        0 <= n <= rooms.len(),
        open_room(rooms.take(n)) is Some,
    ensures
        open_room(rooms) == open_room(rooms.take(n)),
    decreases rooms.len() - n,
{
    if n < rooms.len() {
        assert(rooms.take(n + 1).drop_last() =~= rooms.take(n));
        lemma_open_room_prefix(rooms, n + 1);
    } else {
        assert(rooms.take(n) =~= rooms);
    }
}

/// The first public room with a free seat.
pub fn find_open_room(rooms: &Vec<Room>) -> (found: Option<usize>)
    ensures
        match found {
            Some(idx) => open_room(rooms@) == Some(idx as int) && idx < rooms@.len(),
            None => open_room(rooms@) is None,
        },
{
    let mut i: usize = 0;
    while i < rooms.len()
        invariant
            i <= rooms@.len(),
            open_room(rooms@.take(i as int)) is None,
        decreases rooms@.len() - i,
    {
        assert(rooms@.take(i + 1).drop_last() =~= rooms@.take(i as int));
        if rooms[i].code.is_none() && rooms[i].is_available() {
            proof {
                lemma_open_room_prefix(rooms@, i + 1);
            }
            return Some(i);
        }
        i += 1;
    }
    assert(rooms@.take(i as int) =~= rooms@);
    None
}

/// What a request for a match does. A waiting session takes, under its new
/// name, the first empty seat of the first public room that has one, and the
/// two players are announced to each other; where no public room has a free
/// seat, it takes seat 1 of a new public room, the last of the list. A player
/// who holds seat 1 of a room is told that it has a match already. Nothing
/// else happens to a seated player, nor where no session waits at the address.
pub open spec fn match_outcome(
    rooms: Seq<Room>,
    queue: Seq<SocketSession>,
    addr: Address,
    name: String,
) -> Lobby {
    match room_of(rooms, addr) {
        Some(idx) => Lobby {
            rooms,
            queue,
            sent: if seat_holds(rooms[idx].player1, addr) {
                seq![Parcel { to: addr, message: in_match_notice() }]
            } else {
                Seq::empty()
            },
        },
        None => match waiting_index(queue, addr) {
            None => Lobby::untouched(rooms, queue),
            Some(at) => match open_room(rooms) {
                Some(id) => Lobby {
                    rooms: rooms.update(id, seated(rooms[id], named(queue[at], name))),
                    queue: queue.remove(at),
                    sent: seating_notices(rooms[id], named(queue[at], name)),
                },
                None => Lobby {
                    rooms: rooms.push(Room::fresh(Some(named(queue[at], name)), None, None, name)),
                    queue: queue.remove(at),
                    sent: Seq::empty(),
                },
            },
        },
    }
}

/// Finds a match for the session at `addr`: a seat in a public room, or a
/// new public room to wait in.
pub fn join(name: String, addr: Address, rooms: &mut Vec<Room>, queue: &mut Vec<SocketSession>) -> (out: Vec<
    Delivery,
>)
    ensures
        final(rooms)@ == match_outcome(old(rooms)@, old(queue)@, addr, name).rooms,
        final(queue)@ == match_outcome(old(rooms)@, old(queue)@, addr, name).queue,
        parcels(out@) == match_outcome(old(rooms)@, old(queue)@, addr, name).sent,
        lobby_wf(old(rooms)@, old(queue)@) ==> lobby_wf(final(rooms)@, final(queue)@),
{
    proof {
        if lobby_wf(rooms@, queue@) {
            lemma_match_keeps_lobby(rooms@, queue@, addr, name);
        }
    }
    let mut out: Vec<Delivery> = Vec::new();
    assert(parcels(out@) =~= Seq::empty());
    if let Some(idx) = find_room(rooms, addr) {
        if is_player(&rooms[idx].player1, addr) {
            send_message(
                &mut out,
                addr,
                SocketRequest::new(
                    1011,
                    Some(EventData::Message(String::from_str("player already in match"))),
                ),
            );
            assert(parcels(out@) =~= match_outcome(old(rooms)@, old(queue)@, addr, name).sent);
        }
        return out;
    }
    let session = match get_session(addr, queue) {
        Some(session) => session,
        None => {
            return out;
        },
    };
    let mut player = session;
    player.name = Some(name.clone());
    match find_open_room(rooms) {
        Some(id) => {
            let room = &mut rooms[id];
            let _ = join_room(player, room, &mut out);
        },
        None => {
            rooms.push(Room::new(Some(player), None, None, name));
        },
    }
    out
}

} // verus!
