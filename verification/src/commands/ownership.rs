use crate::commands::game::{play_again_outcome, position_outcome};
use crate::commands::rooms::{
    create_outcome, delete_outcome, leave_outcome, leaver, released, vacated,
};
use crate::commands::users::{join_outcome, named, remove_outcome, seated};
use crate::commands::{handle_outcome, lemma_room_of, lemma_waiting_index, room_of, waiting_index};
use crate::events::command::{lemma_open_room, match_outcome, open_room};
use crate::json::{Command, EventData};
use crate::server::room::{lemma_cleared_room, mark_refusal, seat_holds, Room};
use crate::server::session::{Address, SocketSession};
use vstd::prelude::*;

verus! {

/// How many of the two seats of a room hold a session at the address.
pub open spec fn room_count(room: Room, addr: Address) -> nat {
    (if seat_holds(room.player1, addr) {
        1nat
    } else {
        0nat
    }) + (if seat_holds(room.player2, addr) {
        1nat
    } else {
        0nat
    })
}

/// How many seats of all rooms hold a session at the address.
pub open spec fn seated_count(rooms: Seq<Room>, addr: Address) -> nat
    decreases rooms.len(),
{
    if rooms.len() == 0 {
        0
    } else {
        seated_count(rooms.drop_last(), addr) + room_count(rooms.last(), addr)
    }
}

/// How many sessions of the waiting queue are at the address.
pub open spec fn waiting_count(queue: Seq<SocketSession>, addr: Address) -> nat
    decreases queue.len(),
{
    if queue.len() == 0 {
        0
    } else {
        waiting_count(queue.drop_last(), addr) + (if queue.last().addr == addr {
            1nat
        } else {
            0nat
        })
    }
}

/// In how many places a session at the address is held: seats and places in
/// the waiting queue together.
pub open spec fn places(rooms: Seq<Room>, queue: Seq<SocketSession>, addr: Address) -> nat {
    seated_count(rooms, addr) + waiting_count(queue, addr)
}

/// No session is held in two places: each address has one seat, or one place
/// in the waiting queue, or neither.
pub open spec fn sessions_distinct(rooms: Seq<Room>, queue: Seq<SocketSession>) -> bool {
    forall|addr: Address| #[trigger] places(rooms, queue, addr) <= 1
}

/// Every board holds nothing but marks and empty cells.
pub open spec fn boards_ok(rooms: Seq<Room>) -> bool {
    forall|i: int| 0 <= i < rooms.len() ==> (#[trigger] rooms[i]).wf()
}

/// The invariant of the state that the command actor owns.
pub open spec fn lobby_wf(rooms: Seq<Room>, queue: Seq<SocketSession>) -> bool {
    sessions_distinct(rooms, queue) && boards_ok(rooms)
}

/// The one command that lets go of a session: the removal of one that waits.
pub open spec fn drops(command: Command, rooms: Seq<Room>, queue: Seq<SocketSession>, addr: Address) -> bool {
    command matches Command::RemoveUser { addr: gone } && gone == addr && room_of(rooms, addr) is None
        && waiting_index(queue, addr) is Some
}

proof fn lemma_waiting_push(queue: Seq<SocketSession>, session: SocketSession, addr: Address)
    ensures
        waiting_count(queue.push(session), addr) == waiting_count(queue, addr) + (if session.addr
            == addr {
            1nat
        } else {
            0nat
        }),
{
    assert(queue.push(session).drop_last() =~= queue);
}

proof fn lemma_waiting_remove(queue: Seq<SocketSession>, at: int, addr: Address)
    requires
        0 <= at < queue.len(),
    ensures
        waiting_count(queue.remove(at), addr) + (if queue[at].addr == addr {
            1nat
        } else {
            0nat
        }) == waiting_count(queue, addr),
    decreases queue.len(),
{
    if at == queue.len() - 1 {
        assert(queue.remove(at) =~= queue.drop_last());
    } else {
        assert(queue.remove(at).drop_last() =~= queue.drop_last().remove(at));
        assert(queue.remove(at).last() == queue.last());
        lemma_waiting_remove(queue.drop_last(), at, addr);
    }
}

proof fn lemma_seated_push(rooms: Seq<Room>, room: Room, addr: Address)
    ensures
        seated_count(rooms.push(room), addr) == seated_count(rooms, addr) + room_count(room, addr),
{
    assert(rooms.push(room).drop_last() =~= rooms);
}

proof fn lemma_seated_update(rooms: Seq<Room>, idx: int, room: Room, addr: Address)
    requires
        0 <= idx < rooms.len(),
    ensures
        seated_count(rooms.update(idx, room), addr) + room_count(rooms[idx], addr) == seated_count(
            rooms,
            addr,
        ) + room_count(room, addr),
    decreases rooms.len(),
{
    if idx == rooms.len() - 1 {
        assert(rooms.update(idx, room).drop_last() =~= rooms.drop_last());
    } else {
        assert(rooms.update(idx, room).drop_last() =~= rooms.drop_last().update(idx, room));
        assert(rooms.update(idx, room).last() == rooms.last());
        lemma_seated_update(rooms.drop_last(), idx, room, addr);
    }
}

proof fn lemma_seated_remove(rooms: Seq<Room>, idx: int, addr: Address)
    requires
        0 <= idx < rooms.len(),
    ensures
        seated_count(rooms.remove(idx), addr) + room_count(rooms[idx], addr) == seated_count(
            rooms,
            addr,
        ),
    decreases rooms.len(),
{
    if idx == rooms.len() - 1 {
        assert(rooms.remove(idx) =~= rooms.drop_last());
    } else {
        assert(rooms.remove(idx).drop_last() =~= rooms.drop_last().remove(idx));
        assert(rooms.remove(idx).last() == rooms.last());
        lemma_seated_remove(rooms.drop_last(), idx, addr);
    }
}

proof fn lemma_waiting_released(queue: Seq<SocketSession>, room: Room, addr: Address)
    ensures
        waiting_count(queue + released(room), addr) == waiting_count(queue, addr) + room_count(
            room,
            addr,
        ),
{
    match (room.player1, room.player2) {
        (Some(a), Some(b)) => {
            assert(queue + released(room) =~= queue.push(a).push(b));
            lemma_waiting_push(queue, a, addr);
            lemma_waiting_push(queue.push(a), b, addr);
        },
        (Some(a), None) => {
            assert(queue + released(room) =~= queue.push(a));
            lemma_waiting_push(queue, a, addr);
        },
        (None, Some(b)) => {
            assert(queue + released(room) =~= queue.push(b));
            lemma_waiting_push(queue, b, addr);
        },
        (None, None) => {
            assert(queue + released(room) =~= queue);
        },
    }
}

proof fn lemma_join_keeps(
    rooms: Seq<Room>,
    queue: Seq<SocketSession>,
    from: Address,
    player_name: String,
    room_id: u8,
    room_code: Option<String>,
    addr: Address,
)
    ensures
        places(
            join_outcome(rooms, queue, from, player_name, room_id, room_code).rooms,
            join_outcome(rooms, queue, from, player_name, room_id, room_code).queue,
            addr,
        ) == places(rooms, queue, addr),
{
    let after = join_outcome(rooms, queue, from, player_name, room_id, room_code);
    if after.rooms != rooms || after.queue != queue {
        lemma_waiting_index(queue, from);
        let at = waiting_index(queue, from)->0;
        let session = named(queue[at], player_name);
        lemma_waiting_remove(queue, at, addr);
        lemma_seated_update(rooms, room_id as int, seated(rooms[room_id as int], session), addr);
    }
}

proof fn lemma_create_keeps(
    rooms: Seq<Room>,
    queue: Seq<SocketSession>,
    from: Address,
    player_name: String,
    code: Option<String>,
    addr: Address,
)
    ensures
        places(
            create_outcome(rooms, queue, from, player_name, code).rooms,
            create_outcome(rooms, queue, from, player_name, code).queue,
            addr,
        ) == places(rooms, queue, addr),
{
    if waiting_index(queue, from) is Some {
        lemma_waiting_index(queue, from);
        let at = waiting_index(queue, from)->0;
        lemma_waiting_remove(queue, at, addr);
        lemma_seated_push(
            rooms,
            Room::fresh(Some(named(queue[at], player_name)), None, code, player_name),
            addr,
        );
    }
}

proof fn lemma_leave_keeps(rooms: Seq<Room>, queue: Seq<SocketSession>, from: Address, addr: Address)
    ensures
        places(leave_outcome(rooms, queue, from).rooms, leave_outcome(rooms, queue, from).queue, addr)
            == places(rooms, queue, addr),
{
    if room_of(rooms, from) is Some {
        lemma_room_of(rooms, from);
        let idx = room_of(rooms, from)->0;
        lemma_seated_update(rooms, idx, vacated(rooms[idx], from), addr);
        lemma_waiting_push(queue, leaver(rooms[idx], from), addr);
    }
}

proof fn lemma_delete_keeps(rooms: Seq<Room>, queue: Seq<SocketSession>, from: Address, id: u8, addr: Address)
    ensures
        places(
            delete_outcome(rooms, queue, from, id).rooms,
            delete_outcome(rooms, queue, from, id).queue,
            addr,
        ) == places(rooms, queue, addr),
{
    if id < rooms.len() && seat_holds(rooms[id as int].player1, from) {
        lemma_seated_remove(rooms, id as int, addr);
        lemma_waiting_released(queue, rooms[id as int], addr);
    }
}

proof fn lemma_position_keeps(rooms: Seq<Room>, from: Address, cell: usize, now: u64, addr: Address)
    ensures
        seated_count(position_outcome(rooms, from, cell, now).0, addr) == seated_count(rooms, addr),
        boards_ok(rooms) ==> boards_ok(position_outcome(rooms, from, cell, now).0),
{
    if room_of(rooms, from) is Some {
        lemma_room_of(rooms, from);
        let idx = room_of(rooms, from)->0;
        let first = seat_holds(rooms[idx].player1, from);
        if mark_refusal(rooms[idx], first, cell) is None {
            let moved = rooms[idx].marked(first, cell).turned(now);
            lemma_cleared_room(moved);
            lemma_seated_update(rooms, idx, moved, addr);
            lemma_seated_update(rooms, idx, moved.cleared(), addr);
            if boards_ok(rooms) {
                assert(rooms[idx].wf());
                assert(moved.wf());
            }
        }
    }
}

proof fn lemma_play_again_keeps(rooms: Seq<Room>, from: Address, now: u64, addr: Address)
    ensures
        seated_count(play_again_outcome(rooms, from, now).0, addr) == seated_count(rooms, addr),
        boards_ok(rooms) ==> boards_ok(play_again_outcome(rooms, from, now).0),
{
    if room_of(rooms, from) is Some {
        lemma_room_of(rooms, from);
        let idx = room_of(rooms, from)->0;
        lemma_seated_update(rooms, idx, rooms[idx].turned(now), addr);
        if boards_ok(rooms) {
            assert(rooms[idx].wf());
        }
    }
}

proof fn lemma_remove_keeps(rooms: Seq<Room>, queue: Seq<SocketSession>, from: Address, addr: Address)
    ensures
        places(remove_outcome(rooms, queue, from).rooms, remove_outcome(rooms, queue, from).queue, addr)
            + (if from == addr && room_of(rooms, from) is None && waiting_index(queue, from) is Some {
            1nat
        } else {
            0nat
        }) == places(rooms, queue, addr),
{
    if room_of(rooms, from) is Some {
        lemma_leave_keeps(rooms, queue, from, addr);
    } else if waiting_index(queue, from) is Some {
        lemma_waiting_index(queue, from);
        lemma_waiting_remove(queue, waiting_index(queue, from)->0, addr);
    }
}

/// No command puts a session into a second place, and none but the removal
/// of a waiting session lets go of one: whatever the command, a session at
/// any address is held in as many places after it as before, and in one
/// place less where the command removes it from the waiting queue.
pub proof fn lemma_commands_keep_sessions(
    command: Command,
    now: u64,
    rooms: Seq<Room>,
    queue: Seq<SocketSession>,
    code: Option<String>,
    addr: Address,
)
    ensures
        places(
            handle_outcome(command, now, rooms, queue, code).rooms,
            handle_outcome(command, now, rooms, queue, code).queue,
            addr,
        ) + (if drops(command, rooms, queue, addr) {
            1nat
        } else {
            0nat
        }) == places(rooms, queue, addr),
{
    match command {
        Command::JoinUser { addr: from, data: EventData::JoinRoom { player_name, room_id, room_code } } => {
            lemma_join_keeps(rooms, queue, from, player_name, room_id, room_code, addr);
        },
        Command::RemoveUser { addr: from } => {
            lemma_remove_keeps(rooms, queue, from, addr);
        },
        Command::MarkPosition { addr: from, data: EventData::MarkPosition { position } } => {
            lemma_position_keeps(rooms, from, position, now, addr);
        },
        Command::CreateRoom { addr: from, data: EventData::CreateRoom { player_name, public } } => {
            lemma_create_keeps(rooms, queue, from, player_name, code, addr);
        },
        Command::DeleteRoom { addr: from, id } => {
            lemma_delete_keeps(rooms, queue, from, id, addr);
        },
        Command::PlayAgain { addr: from } => {
            lemma_play_again_keeps(rooms, from, now, addr);
        },
        Command::LeaveRoom { addr: from } => {
            lemma_leave_keeps(rooms, queue, from, addr);
        },
        _ => {},
    }
}

/// Every command keeps the invariant of the lobby: no session in two places,
/// no board with anything but marks and empty cells.
pub proof fn lemma_commands_keep_lobby(
    command: Command,
    now: u64,
    rooms: Seq<Room>,
    queue: Seq<SocketSession>,
    code: Option<String>,
)
    requires
        lobby_wf(rooms, queue),
    ensures
        lobby_wf(
            handle_outcome(command, now, rooms, queue, code).rooms,
            handle_outcome(command, now, rooms, queue, code).queue,
        ),
{
    let after = handle_outcome(command, now, rooms, queue, code);
    assert forall|addr: Address| #[trigger] places(after.rooms, after.queue, addr) <= 1 by {
        lemma_commands_keep_sessions(command, now, rooms, queue, code, addr);
        assert(places(rooms, queue, addr) <= 1);
    }
    assert(boards_ok(after.rooms)) by {
        lemma_boards_kept(command, now, rooms, queue, code);
    }
}

/// A session at an address that is held nowhere can join the waiting queue
/// without harm to the invariant of the lobby.
pub proof fn lemma_new_session_keeps_lobby(
    rooms: Seq<Room>,
    queue: Seq<SocketSession>,
    session: SocketSession,
)
    requires
        lobby_wf(rooms, queue),
        places(rooms, queue, session.addr) == 0,
    ensures
        lobby_wf(rooms, queue.push(session)),
{
    assert forall|addr: Address| #[trigger] places(rooms, queue.push(session), addr) <= 1 by {
        lemma_waiting_push(queue, session, addr);
        assert(places(rooms, queue, addr) <= 1);
    }
}

/// Matchmaking keeps the invariant of the lobby, and holds every session in
/// as many places as before.
pub proof fn lemma_match_keeps_lobby(
    rooms: Seq<Room>,
    queue: Seq<SocketSession>,
    from: Address,
    name: String,
)
    requires
        lobby_wf(rooms, queue),
    ensures
        lobby_wf(match_outcome(rooms, queue, from, name).rooms, match_outcome(rooms, queue, from, name).queue),
        forall|addr: Address|
            #[trigger] places(
                match_outcome(rooms, queue, from, name).rooms,
                match_outcome(rooms, queue, from, name).queue,
                addr,
            ) == places(rooms, queue, addr),
{
    let after = match_outcome(rooms, queue, from, name);
    assert forall|addr: Address| #[trigger]
        places(after.rooms, after.queue, addr) == places(rooms, queue, addr) by {
        if room_of(rooms, from) is None && waiting_index(queue, from) is Some {
            lemma_waiting_index(queue, from);
            lemma_open_room(rooms);
            let at = waiting_index(queue, from)->0;
            let session = named(queue[at], name);
            lemma_waiting_remove(queue, at, addr);
            match open_room(rooms) {
                Some(id) => {
                    lemma_seated_update(rooms, id, seated(rooms[id], session), addr);
                },
                None => {
                    lemma_seated_push(rooms, Room::fresh(Some(session), None, None, name), addr);
                },
            }
        }
    }
    assert forall|addr: Address| #[trigger] places(after.rooms, after.queue, addr) <= 1 by {
        assert(places(rooms, queue, addr) <= 1);
    }
    assert forall|i: int| 0 <= i < after.rooms.len() implies (#[trigger] after.rooms[i]).wf() by {
        if i < rooms.len() {
            assert(rooms[i].wf());
        }
        if room_of(rooms, from) is None && waiting_index(queue, from) is Some {
            lemma_open_room(rooms);
            let at = waiting_index(queue, from)->0;
            let room = Room::fresh(Some(named(queue[at], name)), None, None, name);
            lemma_cleared_room(room);
            assert(room.cleared() == room);
        }
    }
}

proof fn lemma_boards_kept(
    command: Command,
    now: u64,
    rooms: Seq<Room>,
    queue: Seq<SocketSession>,
    code: Option<String>,
)
    requires
        boards_ok(rooms),
    ensures
        boards_ok(handle_outcome(command, now, rooms, queue, code).rooms),
{
    let after = handle_outcome(command, now, rooms, queue, code).rooms;
    let any = Address { ip: 0, port: 0 };
    match command {
        Command::MarkPosition { addr: from, data: EventData::MarkPosition { position } } => {
            lemma_position_keeps(rooms, from, position, now, any);
        },
        Command::PlayAgain { addr: from } => {
            lemma_play_again_keeps(rooms, from, now, any);
        },
        Command::CreateRoom { addr: from, data: EventData::CreateRoom { player_name, public } } => {
            if waiting_index(queue, from) is Some {
                let at = waiting_index(queue, from)->0;
                let room = Room::fresh(Some(named(queue[at], player_name)), None, code, player_name);
                lemma_cleared_room(room);
                assert(room.cleared() == room);
                assert forall|i: int| 0 <= i < after.len() implies (#[trigger] after[i]).wf() by {
                    if i < rooms.len() {
                        assert(rooms[i].wf());
                    }
                }
            }
        },
        Command::DeleteRoom { addr: from, id } => {
            assert forall|i: int| 0 <= i < after.len() implies (#[trigger] after[i]).wf() by {
                if id < rooms.len() && seat_holds(rooms[id as int].player1, from) {
                    if i < id {
                        assert(rooms[i].wf());
                    } else {
                        assert(rooms[i + 1].wf());
                    }
                } else {
                    assert(rooms[i].wf());
                }
            }
        },
        _ => {
            assert forall|i: int| 0 <= i < after.len() implies (#[trigger] after[i]).wf() by {
                assert(after.len() == rooms.len()) by {
                    lemma_room_counts(command, now, rooms, queue, code);
                }
                assert(after[i].tray == rooms[i].tray) by {
                    lemma_room_counts(command, now, rooms, queue, code);
                }
                assert(rooms[i].wf());
            }
        },
    }
}

/// The commands that neither move a mark nor add or delete a room leave as
/// many rooms as there were, each with its board.
proof fn lemma_room_counts(
    command: Command,
    now: u64,
    rooms: Seq<Room>,
    queue: Seq<SocketSession>,
    code: Option<String>,
)
    requires
        !(command matches Command::MarkPosition { data: EventData::MarkPosition { .. }, .. }),
        !(command is PlayAgain),
        !(command matches Command::CreateRoom { data: EventData::CreateRoom { .. }, .. }),
        !(command is DeleteRoom),
    ensures
        handle_outcome(command, now, rooms, queue, code).rooms.len() == rooms.len(),
        forall|i: int|
            0 <= i < rooms.len() ==> (#[trigger] handle_outcome(
                command,
                now,
                rooms,
                queue,
                code,
            ).rooms[i]).tray == rooms[i].tray,
{
    match command {
        Command::JoinUser { addr: from, data: EventData::JoinRoom { player_name, room_id, room_code } } => {
            lemma_waiting_index(queue, from);
        },
        Command::RemoveUser { addr: from } => {
            lemma_room_of(rooms, from);
        },
        Command::LeaveRoom { addr: from } => {
            lemma_room_of(rooms, from);
        },
        _ => {},
    }
}

} // verus!
