use crate::commands::game::{play_again_outcome, position_outcome};
use crate::commands::ownership::{lemma_commands_keep_lobby, lobby_wf};
use crate::commands::rooms::{code_fits, create_outcome, delete_outcome, leave_outcome, list_reply};
use crate::commands::users::{join_outcome, remove_outcome};
use crate::json::{Command, Envelope, EventData, SocketRequest};
use crate::server::room::Room;
use crate::server::session::{Address, SocketSession};
use crate::server::{parcels, send_message, Delivery, Parcel};
use vstd::prelude::*;

pub mod envelopes;
pub mod game;
pub mod ownership;
pub mod rooms;
pub mod users;

verus! {

/// The state that the command actor owns, together with what a command has
/// queued for the sessions.
pub struct Lobby {
    pub rooms: Seq<Room>,
    pub queue: Seq<SocketSession>,
    pub sent: Seq<Parcel>,
}

impl Lobby {
    /// The lobby as a command leaves it that does nothing.
    pub open spec fn untouched(rooms: Seq<Room>, queue: Seq<SocketSession>) -> Lobby {
        Lobby { rooms, queue, sent: Seq::empty() }
    }
}

/// The index of the first room that seats the session at `addr`.
pub open spec fn room_of(rooms: Seq<Room>, addr: Address) -> Option<int>
    decreases rooms.len(),
{
    if rooms.len() == 0 {
        None
    } else {
        match room_of(rooms.drop_last(), addr) {
            Some(idx) => Some(idx),
            None => if rooms.last().seats(addr) {
                Some(rooms.len() - 1)
            } else {
                None
            },
        }
    }
}

/// The place in the waiting queue of the first session at `addr`.
pub open spec fn waiting_index(queue: Seq<SocketSession>, addr: Address) -> Option<int>
    decreases queue.len(),
{
    if queue.len() == 0 {
        None
    } else {
        match waiting_index(queue.drop_last(), addr) {
            Some(idx) => Some(idx),
            None => if queue.last().addr == addr {
                Some(queue.len() - 1)
            } else {
                None
            },
        }
    }
}

/// [`room_of`] names a room that seats the address and comes before every
/// other that does; it names none only where no room seats the address.
pub proof fn lemma_room_of(rooms: Seq<Room>, addr: Address)
    ensures
        match room_of(rooms, addr) {
            Some(idx) => 0 <= idx < rooms.len() && rooms[idx].seats(addr) && forall|j: int|
                0 <= j < idx ==> !(#[trigger] rooms[j]).seats(addr),
            None => forall|j: int| 0 <= j < rooms.len() ==> !(#[trigger] rooms[j]).seats(addr),
        },
    decreases rooms.len(),
{
    if rooms.len() > 0 {
        lemma_room_of(rooms.drop_last(), addr);
        assert forall|j: int| 0 <= j < rooms.len() - 1 implies rooms.drop_last()[j] == rooms[j] by {}
    }
}

/// [`waiting_index`] names a session at the address that comes before every
/// other such session; it names none only where none waits at the address.
pub proof fn lemma_waiting_index(queue: Seq<SocketSession>, addr: Address)
    ensures
        match waiting_index(queue, addr) {
            Some(idx) => 0 <= idx < queue.len() && queue[idx].addr == addr && forall|j: int|
                0 <= j < idx ==> (#[trigger] queue[j]).addr != addr,
            None => forall|j: int| 0 <= j < queue.len() ==> (#[trigger] queue[j]).addr != addr,
        },
    decreases queue.len(),
{
    if queue.len() > 0 {
        lemma_waiting_index(queue.drop_last(), addr);
        assert forall|j: int| 0 <= j < queue.len() - 1 implies queue.drop_last()[j] == queue[j] by {}
    }
}

/// The first room that seats the session at `addr`.
pub fn find_room(rooms: &Vec<Room>, addr: Address) -> (found: Option<usize>)
    ensures
        match found {
            Some(idx) => room_of(rooms@, addr) == Some(idx as int) && idx < rooms@.len(),
            None => room_of(rooms@, addr) is None,
        },
{
    let mut i: usize = 0;
    while i < rooms.len()
        invariant
            i <= rooms@.len(),
            room_of(rooms@.take(i as int), addr) is None,
        decreases rooms@.len() - i,
    {
        assert(rooms@.take(i + 1).drop_last() =~= rooms@.take(i as int));
        if rooms[i].find_player(addr) {
            proof {
                lemma_room_of_prefix(rooms@, addr, i + 1);
            }
            return Some(i);
        }
        i += 1;
    }
    assert(rooms@.take(i as int) =~= rooms@);
    None
}

/// The place of the first session in the queue at `addr`.
pub fn find_waiting(queue: &Vec<SocketSession>, addr: Address) -> (found: Option<usize>)
    ensures
        match found {
            Some(idx) => waiting_index(queue@, addr) == Some(idx as int) && idx < queue@.len(),
            None => waiting_index(queue@, addr) is None,
        },
{
    let mut i: usize = 0;
    while i < queue.len()
        invariant
            i <= queue@.len(),
            waiting_index(queue@.take(i as int), addr) is None,
        decreases queue@.len() - i,
    {
        assert(queue@.take(i + 1).drop_last() =~= queue@.take(i as int));
        if queue[i].addr == addr {
            proof {
                lemma_waiting_index_prefix(queue@, addr, i + 1);
            }
            return Some(i);
        }
        i += 1;
    }
    assert(queue@.take(i as int) =~= queue@);
    None
}

/// A room found among the first `n` is the room found among all.
proof fn lemma_room_of_prefix(rooms: Seq<Room>, addr: Address, n: int)
    requires
        0 <= n <= rooms.len(),
        room_of(rooms.take(n), addr) is Some,
    ensures
        room_of(rooms, addr) == room_of(rooms.take(n), addr),
    decreases rooms.len() - n,
{
    if n < rooms.len() {
        assert(rooms.take(n + 1).drop_last() =~= rooms.take(n));
        lemma_room_of_prefix(rooms, addr, n + 1);
    } else {
        assert(rooms.take(n) =~= rooms);
    }
}

/// A session found among the first `n` is the session found among all.
proof fn lemma_waiting_index_prefix(queue: Seq<SocketSession>, addr: Address, n: int)
    requires
        0 <= n <= queue.len(),
        waiting_index(queue.take(n), addr) is Some,
    ensures
        waiting_index(queue, addr) == waiting_index(queue.take(n), addr),
    decreases queue.len() - n,
{
    if n < queue.len() {
        assert(queue.take(n + 1).drop_last() =~= queue.take(n));
        lemma_waiting_index_prefix(queue, addr, n + 1);
    } else {
        assert(queue.take(n) =~= queue);
    }
}

/// One parcel with the event for each session of the queue, in the queue's order.
pub open spec fn broadcast(queue: Seq<SocketSession>, event: Envelope) -> Seq<Parcel> {
    Seq::new(queue.len(), |i: int| Parcel { to: queue[i].addr, message: event })
}

/// Queues the event for every waiting session.
pub fn notify_connections(event: SocketRequest, queue: &Vec<SocketSession>, out: &mut Vec<Delivery>)
    ensures
        parcels(final(out)@) == parcels(old(out)@) + broadcast(queue@, event@),
{
    let mut i: usize = 0;
    while i < queue.len()
        invariant
            i <= queue@.len(),
            parcels(out@) == parcels(old(out)@) + broadcast(queue@.take(i as int), event@),
        decreases queue@.len() - i,
    {
        send_message(out, queue[i].addr, event.clone());
        i += 1;
        assert(parcels(out@) =~= parcels(old(out)@) + broadcast(queue@.take(i as int), event@));
    }
    assert(queue@.take(i as int) =~= queue@);
}

/// What a command does, given the join code that a new private room gets.
/// A command whose payload is not of its kind does nothing, and neither does
/// the start of a game.
pub open spec fn handle_outcome(
    command: Command,
    now: u64,
    rooms: Seq<Room>,
    queue: Seq<SocketSession>,
    code: Option<String>,
) -> Lobby {
    match command {
        Command::JoinUser { addr, data: EventData::JoinRoom { player_name, room_id, room_code } } => join_outcome(
            rooms,
            queue,
            addr,
            player_name,
            room_id,
            room_code,
        ),
        Command::RemoveUser { addr } => remove_outcome(rooms, queue, addr),
        Command::MarkPosition { addr, data: EventData::MarkPosition { position } } => Lobby {
            rooms: position_outcome(rooms, addr, position, now).0,
            queue,
            sent: position_outcome(rooms, addr, position, now).1,
        },
        Command::CreateRoom { addr, data: EventData::CreateRoom { player_name, public } } => create_outcome(
            rooms,
            queue,
            addr,
            player_name,
            code,
        ),
        Command::DeleteRoom { addr, id } => delete_outcome(rooms, queue, addr, id),
        Command::ListRooms { addr } => Lobby { rooms, queue, sent: list_reply(rooms, queue, addr) },
        Command::PlayAgain { addr } => Lobby {
            rooms: play_again_outcome(rooms, addr, now).0,
            queue,
            sent: play_again_outcome(rooms, addr, now).1,
        },
        Command::LeaveRoom { addr } => leave_outcome(rooms, queue, addr),
        _ => Lobby::untouched(rooms, queue),
    }
}

/// The join code suits the command: one that creates a room gets the code of
/// a public or of a private room, as it asks; any other command gets none.
pub open spec fn code_suits(command: Command, code: Option<String>) -> bool {
    match command {
        Command::CreateRoom { addr, data: EventData::CreateRoom { player_name, public } } => code_fits(
            public,
            code,
        ),
        _ => code is None,
    }
}

/// Carries out one command, at time `now`, on the rooms and the waiting
/// queue, and returns what it has queued for the sessions.
pub fn handle(command: Command, now: u64, rooms: &mut Vec<Room>, queue: &mut Vec<SocketSession>) -> (out: Vec<
    Delivery,
>)
    ensures
        exists|code: Option<String>|
            {
                &&& code_suits(command, code)
                &&& final(rooms)@ == (#[trigger] handle_outcome(
                    command,
                    now,
                    old(rooms)@,
                    old(queue)@,
                    code,
                )).rooms
                &&& final(queue)@ == handle_outcome(command, now, old(rooms)@, old(queue)@, code).queue
                &&& parcels(out@) == handle_outcome(command, now, old(rooms)@, old(queue)@, code).sent
            },
        lobby_wf(old(rooms)@, old(queue)@) ==> lobby_wf(final(rooms)@, final(queue)@),
{
    let out = dispatch(command, now, rooms, queue);
    proof {
        if lobby_wf(old(rooms)@, old(queue)@) {
            let code = choose|code: Option<String>|
                {
                    &&& code_suits(command, code)
                    &&& rooms@ == (#[trigger] handle_outcome(
                        command,
                        now,
                        old(rooms)@,
                        old(queue)@,
                        code,
                    )).rooms
                    &&& queue@ == handle_outcome(command, now, old(rooms)@, old(queue)@, code).queue
                    &&& parcels(out@) == handle_outcome(command, now, old(rooms)@, old(queue)@, code).sent
                };
            lemma_commands_keep_lobby(command, now, old(rooms)@, old(queue)@, code);
        }
    }
    out
}

/// Hands a command to the function that carries it out.
fn dispatch(command: Command, now: u64, rooms: &mut Vec<Room>, queue: &mut Vec<SocketSession>) -> (out: Vec<
    Delivery,
>)
    ensures
        exists|code: Option<String>|
            {
                &&& code_suits(command, code)
                &&& final(rooms)@ == (#[trigger] handle_outcome(
                    command,
                    now,
                    old(rooms)@,
                    old(queue)@,
                    code,
                )).rooms
                &&& final(queue)@ == handle_outcome(command, now, old(rooms)@, old(queue)@, code).queue
                &&& parcels(out@) == handle_outcome(command, now, old(rooms)@, old(queue)@, code).sent
            },
{
    let ghost none: Option<String> = None;
    match command {
        Command::JoinUser { addr, data: EventData::JoinRoom { player_name, room_id, room_code } } => {
            let out = users::join(addr, player_name, room_id, room_code, rooms, queue);
            assert(code_suits(command, none));
            assert(rooms@ == handle_outcome(command, now, old(rooms)@, old(queue)@, none).rooms);
            out
        },
        Command::RemoveUser { addr } => {
            let out = users::remove(addr, rooms, queue);
            assert(rooms@ == handle_outcome(command, now, old(rooms)@, old(queue)@, none).rooms);
            out
        },
        Command::MarkPosition { addr, data: EventData::MarkPosition { position } } => {
            let out = game::position(addr, position, now, rooms);
            assert(rooms@ == handle_outcome(command, now, old(rooms)@, old(queue)@, none).rooms);
            out
        },
        Command::CreateRoom { addr, data: EventData::CreateRoom { player_name, public } } => {
            let out = rooms::create(addr, player_name, public, rooms, queue);
            proof {
                let code = choose|code: Option<String>|
                    {
                        &&& code_fits(public, code)
                        &&& rooms@ == (#[trigger] create_outcome(
                            old(rooms)@,
                            old(queue)@,
                            addr,
                            player_name,
                            code,
                        )).rooms
                        &&& queue@ == create_outcome(old(rooms)@, old(queue)@, addr, player_name, code).queue
                        &&& parcels(out@) == create_outcome(
                            old(rooms)@,
                            old(queue)@,
                            addr,
                            player_name,
                            code,
                        ).sent
                    };
                assert(code_suits(command, code));
                assert(rooms@ == handle_outcome(command, now, old(rooms)@, old(queue)@, code).rooms);
            }
            out
        },
        Command::DeleteRoom { addr, id } => {
            let out = rooms::delete(addr, id, rooms, queue);
            assert(rooms@ == handle_outcome(command, now, old(rooms)@, old(queue)@, none).rooms);
            out
        },
        Command::ListRooms { addr } => {
            let out = rooms::list(addr, rooms, queue);
            assert(rooms@ == handle_outcome(command, now, old(rooms)@, old(queue)@, none).rooms);
            out
        },
        Command::PlayAgain { addr } => {
            let out = game::play_again(addr, now, rooms);
            assert(rooms@ == handle_outcome(command, now, old(rooms)@, old(queue)@, none).rooms);
            out
        },
        Command::LeaveRoom { addr } => {
            let out = rooms::leave(addr, rooms, queue);
            assert(rooms@ == handle_outcome(command, now, old(rooms)@, old(queue)@, none).rooms);
            out
        },
        _ => {
            let out: Vec<Delivery> = Vec::new();
            assert(parcels(out@) =~= Seq::empty());
            assert(rooms@ == handle_outcome(command, now, old(rooms)@, old(queue)@, none).rooms);
            out
        },
    }
}

} // verus!
