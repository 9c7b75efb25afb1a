use crate::commands::rooms::{leave_outcome, list_reply, listing};
use crate::commands::users::{join_outcome, joined_notices, named, seating_notices};
use crate::commands::{broadcast, handle_outcome, room_of, waiting_index};
use crate::events::command::{match_outcome, open_room};
use crate::json::{parties_view, Command, Envelope, EventData, Payload};
use crate::server::room::Room;
use crate::server::session::{Address, SocketSession};
use crate::server::{sweep_outcome, sweep_room, Parcel};
use vstd::prelude::*;

verus! {

/// The envelope is one that the server sends: its payload is the one that
/// its opcode calls for.
pub open spec fn is_server_message(envelope: Envelope) -> bool {
    match envelope.d {
        None => envelope.opcode == 8 || envelope.opcode == 9 || envelope.opcode == 14,
        Some(Payload::MarkPosition { .. }) => envelope.opcode == 10,
        Some(Payload::EndRoom { status }) => envelope.opcode == 11 && 1 <= status <= 3,
        Some(Payload::Joined { .. }) => envelope.opcode == 13,
        Some(Payload::ListRooms { parties }) => envelope.opcode == 17 && parties is Some && forall|i: int|
            0 <= i < parties->0.len() ==> (#[trigger] parties->0[i]) is RoomCreated,
        Some(Payload::RoomCreated { .. }) => envelope.opcode == 18,
        Some(Payload::RoomDeleted { .. }) => envelope.opcode == 19,
        Some(Payload::Left { .. }) => envelope.opcode == 20,
        Some(Payload::OwnerCode { .. }) => envelope.opcode == 21,
        Some(Payload::Message(_)) => envelope.opcode == 1007 || envelope.opcode == 1011,
        _ => false,
    }
}

/// Every parcel holds an envelope that the server sends.
pub open spec fn all_server_messages(sent: Seq<Parcel>) -> bool {
    forall|i: int| 0 <= i < sent.len() ==> is_server_message((#[trigger] sent[i]).message)
}

proof fn lemma_broadcast_fits(queue: Seq<SocketSession>, event: Envelope)
    requires
        is_server_message(event),
    ensures
        all_server_messages(broadcast(queue, event)),
{
}

proof fn lemma_joined_fit(is_player1: bool, joined: SocketSession, other: Option<SocketSession>)
    ensures
        all_server_messages(joined_notices(is_player1, joined, other)),
{
}

proof fn lemma_seating_fits(room: Room, session: SocketSession)
    ensures
        all_server_messages(seating_notices(room, session)),
{
    lemma_joined_fit(true, session, room.player2);
    lemma_joined_fit(false, session, room.player1);
}

proof fn lemma_listing_fits(rooms: Seq<Room>, queue: Seq<SocketSession>, addr: Address)
    ensures
        all_server_messages(list_reply(rooms, queue, addr)),
{
    let entries = parties_view(listing(rooms));
    assert forall|i: int| 0 <= i < entries.len() implies (#[trigger] entries[i]) is RoomCreated by {}
}

proof fn lemma_leave_fits(rooms: Seq<Room>, queue: Seq<SocketSession>, addr: Address)
    ensures
        all_server_messages(leave_outcome(rooms, queue, addr).sent),
{
}

proof fn lemma_sweep_room_fits(room: Room, idx: int, queue: Seq<SocketSession>, now: u64)
    ensures
        all_server_messages(sweep_room(room, idx, queue, now)),
{
}

/// Whatever the command, every message that it queues is one that the server
/// sends, with the payload that its opcode calls for.
pub proof fn lemma_commands_queue_server_messages(
    command: Command,
    now: u64,
    rooms: Seq<Room>,
    queue: Seq<SocketSession>,
    code: Option<String>,
)
    ensures
        all_server_messages(handle_outcome(command, now, rooms, queue, code).sent),
{
    match command {
        Command::JoinUser { addr, data: EventData::JoinRoom { player_name, room_id, room_code } } => {
            let after = join_outcome(rooms, queue, addr, player_name, room_id, room_code);
            if after.sent.len() > 0 {
                lemma_seating_fits(
                    rooms[room_id as int],
                    named(queue[waiting_index(queue, addr)->0], player_name),
                );
            }
        },
        Command::RemoveUser { addr } => {
            lemma_leave_fits(rooms, queue, addr);
        },
        Command::MarkPosition { addr, data: EventData::MarkPosition { position } } => {},
        Command::CreateRoom { addr, data: EventData::CreateRoom { player_name, public } } => {},
        Command::DeleteRoom { addr, id } => {},
        Command::ListRooms { addr } => {
            lemma_listing_fits(rooms, queue, addr);
        },
        Command::PlayAgain { addr } => {
            match room_of(rooms, addr) {
                Some(idx) => match (rooms[idx].player1, rooms[idx].player2) {
                    (Some(player1), Some(player2)) => {
                        lemma_joined_fit(false, player1, Some(player2));
                        lemma_joined_fit(true, player2, Some(player1));
                    },
                    _ => {},
                },
                None => {},
            }
        },
        Command::LeaveRoom { addr } => {
            lemma_leave_fits(rooms, queue, addr);
        },
        _ => {},
    }
}

/// Every message that matchmaking queues is one that the server sends.
pub proof fn lemma_match_queues_server_messages(
    rooms: Seq<Room>,
    queue: Seq<SocketSession>,
    addr: Address,
    name: String,
)
    ensures
        all_server_messages(match_outcome(rooms, queue, addr, name).sent),
{
    let after = match_outcome(rooms, queue, addr, name);
    if room_of(rooms, addr) is None && after.sent.len() > 0 {
        let at = waiting_index(queue, addr)->0;
        let id = open_room(rooms)->0;
        lemma_seating_fits(rooms[id], named(queue[at], name));
    }
}

/// Every message that the turn-timer sweep queues is one that the server sends.
pub proof fn lemma_sweep_queues_server_messages(rooms: Seq<Room>, queue: Seq<SocketSession>, now: u64)
    ensures
        all_server_messages(sweep_outcome(rooms, queue, now)),
    decreases rooms.len(),
{
    if rooms.len() > 0 {
        lemma_sweep_queues_server_messages(rooms.drop_last(), queue, now);
        lemma_sweep_room_fits(rooms.last(), rooms.len() - 1, queue, now);
    }
}

} // verus!
