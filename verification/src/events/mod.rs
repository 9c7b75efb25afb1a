use crate::json::{Command, EventData, SocketRequest};
use crate::server::session::Address;
use vstd::prelude::*;

pub mod command;

verus! {

/// The command that a message from a client stands for. An opcode that asks
/// for nothing, or one whose payload is not of its kind, stands for none.
pub open spec fn command_for(addr: Address, event: SocketRequest) -> Option<Command> {
    match (event.opcode, event.d) {
        (10, Some(EventData::MarkPosition { position })) => Some(
            Command::MarkPosition { addr, data: EventData::MarkPosition { position } },
        ),
        (12, Some(EventData::JoinRoom { player_name, room_id, room_code })) => Some(
            Command::JoinUser { addr, data: EventData::JoinRoom { player_name, room_id, room_code } },
        ),
        (14, None) => Some(Command::LeaveRoom { addr }),
        (15, Some(EventData::CreateRoom { player_name, public })) => Some(
            Command::CreateRoom { addr, data: EventData::CreateRoom { player_name, public } },
        ),
        (16, Some(EventData::DeleteRoom { id })) => Some(Command::DeleteRoom { addr, id }),
        (17, None) => Some(Command::ListRooms { addr }),
        (22, None) => Some(Command::PlayAgain { addr }),
        _ => None,
    }
}

/// Turns a message that came in on the connection at `addr` into the command
/// for the actor's queue.
pub fn handle(addr: Address, event: SocketRequest) -> (command: Option<Command>)
    ensures
        command == command_for(addr, event),
{
    match (event.opcode, event.d) {
        (10, Some(EventData::MarkPosition { position })) => Some(
            Command::MarkPosition { addr, data: EventData::MarkPosition { position } },
        ),
        (12, Some(EventData::JoinRoom { player_name, room_id, room_code })) => Some(
            Command::JoinUser { addr, data: EventData::JoinRoom { player_name, room_id, room_code } },
        ),
        (14, None) => Some(Command::LeaveRoom { addr }),
        (15, Some(EventData::CreateRoom { player_name, public })) => Some(
            Command::CreateRoom { addr, data: EventData::CreateRoom { player_name, public } },
        ),
        (16, Some(EventData::DeleteRoom { id })) => Some(Command::DeleteRoom { addr, id }),
        (17, None) => Some(Command::ListRooms { addr }),
        (22, None) => Some(Command::PlayAgain { addr }),
        _ => None,
    }
}

} // verus!
