use crate::commands::rooms::opponent;
use crate::commands::users::{joined_notices, notify_joined};
use crate::commands::{find_room, lemma_room_of, room_of};
use crate::json::{Envelope, EventData, Payload, SocketRequest};
use crate::server::room::{
    empty_board, end_notice, error_notice, is_domain_error, is_player, lemma_cleared_room,
    mark_refusal, seat_holds, status_after, Room,
};
use crate::server::session::Address;
use crate::server::{parcels, send_message, Delivery, Parcel};
use vstd::prelude::*;

verus! {

/// The envelope that tells a player of the other's move.
pub open spec fn move_notice(position: usize) -> Envelope {
    Envelope { opcode: 10, d: Some(Payload::MarkPosition { position }) }
}

/// What a move does to the rooms, and what it queues. A refused move changes
/// nothing and is answered with the error, to the mover alone. An accepted
/// move marks the cell, is told to the other seat, and hands the turn over at
/// `now`. Where it ends the game, both seats are told how, and the room starts
/// a new round with both players in their seats. Nothing happens where the
/// address is not seated.
pub open spec fn position_outcome(rooms: Seq<Room>, addr: Address, position: usize, now: u64) -> (
    Seq<Room>,
    Seq<Parcel>,
) {
    match room_of(rooms, addr) {
        None => (rooms, Seq::empty()),
        Some(idx) => {
            let room = rooms[idx];
            let first = seat_holds(room.player1, addr);
            match mark_refusal(room, first, position) {
                Some(text) => (rooms, seq![Parcel { to: addr, message: error_notice(text) }]),
                None => {
                    let moved = room.marked(first, position).turned(now);
                    let told = match opponent(room, addr) {
                        Some(other) => seq![Parcel { to: other.addr, message: move_notice(position) }],
                        None => Seq::empty(),
                    };
                    match status_after(moved.tray@, first) {
                        None => (rooms.update(idx, moved), told),
                        Some(status) => (
                            rooms.update(idx, moved.cleared()),
                            told + moved.replies(end_notice(status)),
                        ),
                    }
                },
            }
        },
    }
}

/// What a request for another round does: the room of the session at `addr`
/// has its turn handed over at `now`, and where both seats are taken the two
/// players are announced to each other again, twice over. Nothing happens
/// where the address is not seated.
pub open spec fn play_again_outcome(rooms: Seq<Room>, addr: Address, now: u64) -> (
    Seq<Room>,
    Seq<Parcel>,
) {
    match room_of(rooms, addr) {
        None => (rooms, Seq::empty()),
        Some(idx) => (
            rooms.update(idx, rooms[idx].turned(now)),
            match (rooms[idx].player1, rooms[idx].player2) {
                (Some(player1), Some(player2)) => joined_notices(false, player1, Some(player2))
                    + joined_notices(true, player2, Some(player1)),
                _ => Seq::empty(),
            },
        ),
    }
}

/// A move of the session at `addr` on the given cell, made at `now`.
pub fn position(addr: Address, cell: usize, now: u64, rooms: &mut Vec<Room>) -> (out: Vec<Delivery>)
    ensures
        final(rooms)@ == position_outcome(old(rooms)@, addr, cell, now).0,
        parcels(out@) == position_outcome(old(rooms)@, addr, cell, now).1,
{
    let mut out: Vec<Delivery> = Vec::new();
    assert(parcels(out@) =~= Seq::empty());
    let idx = match find_room(rooms, addr) {
        Some(idx) => idx,
        None => {
            return out;
        },
    };
    proof {
        lemma_room_of(rooms@, addr);
    }
    let room = &mut rooms[idx];
    let first = is_player(&room.player1, addr);
    match room.play(first, cell, now) {
        Err(e) => {
            send_message(&mut out, addr, e);
        },
        Ok(status) => {
            let other = if first {
                &room.player2
            } else {
                &room.player1
            };
            if let Some(player) = other {
                send_message(
                    &mut out,
                    player.addr,
                    SocketRequest { opcode: 10, d: Some(EventData::MarkPosition { position: cell }) },
                );
            }
            if let Some(status) = status {
                room.reply_event(SocketRequest { opcode: 11, d: Some(EventData::EndRoom { status }) }, &mut out);
                let ended = rooms.remove(idx);
                rooms.insert(idx, ended.reset());
            }
        },
    }
    assert(rooms@ =~= position_outcome(old(rooms)@, addr, cell, now).0);
    assert(parcels(out@) =~= position_outcome(old(rooms)@, addr, cell, now).1);
    out
}

/// A request of the session at `addr` for another round, made at `now`.
pub fn play_again(addr: Address, now: u64, rooms: &mut Vec<Room>) -> (out: Vec<Delivery>)
    ensures
        final(rooms)@ == play_again_outcome(old(rooms)@, addr, now).0,
        parcels(out@) == play_again_outcome(old(rooms)@, addr, now).1,
{
    let mut out: Vec<Delivery> = Vec::new();
    assert(parcels(out@) =~= Seq::empty());
    let idx = match find_room(rooms, addr) {
        Some(idx) => idx,
        None => {
            return out;
        },
    };
    let room = &mut rooms[idx];
    room.duration_turn = Some(now);
    room.player1_turn = !room.player1_turn;
    match (&room.player1, &room.player2) {
        (Some(player1), Some(player2)) => {
            notify_joined(false, player1, Some(player2), &mut out);
            notify_joined(true, player2, Some(player1), &mut out);
        },
        _ => {},
    }
    assert(rooms@ =~= play_again_outcome(old(rooms)@, addr, now).0);
    assert(parcels(out@) =~= play_again_outcome(old(rooms)@, addr, now).1);
    out
}

/// A move that ends the game leaves the room with an empty board, seat 1 to
/// move and no turn running, and with both seats, the code and the name as
/// they were.
pub proof fn lemma_ended_round_keeps_seats(rooms: Seq<Room>, addr: Address, cell: usize, now: u64)
    requires
        room_of(rooms, addr) is Some,
        mark_refusal(
            rooms[room_of(rooms, addr)->0],
            seat_holds(rooms[room_of(rooms, addr)->0].player1, addr),
            cell,
        ) is None,
        status_after(
            rooms[room_of(rooms, addr)->0].marked(
                seat_holds(rooms[room_of(rooms, addr)->0].player1, addr),
                cell,
            ).tray@,
            seat_holds(rooms[room_of(rooms, addr)->0].player1, addr),
        ) is Some,
    ensures
        position_outcome(rooms, addr, cell, now).0.len() == rooms.len(),
        position_outcome(rooms, addr, cell, now).0[room_of(rooms, addr)->0].tray@ == empty_board(),
        position_outcome(rooms, addr, cell, now).0[room_of(rooms, addr)->0].player1_turn,
        position_outcome(rooms, addr, cell, now).0[room_of(rooms, addr)->0].duration_turn is None,
        position_outcome(rooms, addr, cell, now).0[room_of(rooms, addr)->0].player1
            == rooms[room_of(rooms, addr)->0].player1,
        position_outcome(rooms, addr, cell, now).0[room_of(rooms, addr)->0].player2
            == rooms[room_of(rooms, addr)->0].player2,
        position_outcome(rooms, addr, cell, now).0[room_of(rooms, addr)->0].code
            == rooms[room_of(rooms, addr)->0].code,
        position_outcome(rooms, addr, cell, now).0[room_of(rooms, addr)->0].name
            == rooms[room_of(rooms, addr)->0].name,
{
    lemma_room_of(rooms, addr);
    let idx = room_of(rooms, addr)->0;
    let first = seat_holds(rooms[idx].player1, addr);
    lemma_cleared_room(rooms[idx].marked(first, cell).turned(now));
}

/// A move that is refused, for the cell, the turn or a mark in the way, leaves
/// every room as it is and is answered with a domain error, to the mover alone.
pub proof fn lemma_refused_move_changes_nothing(rooms: Seq<Room>, addr: Address, cell: usize, now: u64)
    requires
        room_of(rooms, addr) is Some,
        cell > 8 || rooms[room_of(rooms, addr)->0].player1_turn != seat_holds(
            rooms[room_of(rooms, addr)->0].player1,
            addr,
        ) || rooms[room_of(rooms, addr)->0].tray@[cell as int] != ' ',
    ensures
        position_outcome(rooms, addr, cell, now).0 == rooms,
        position_outcome(rooms, addr, cell, now).1.len() == 1,
        position_outcome(rooms, addr, cell, now).1[0].to == addr,
        is_domain_error(position_outcome(rooms, addr, cell, now).1[0].message),
{
}

} // verus!
