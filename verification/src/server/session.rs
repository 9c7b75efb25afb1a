use crate::events::{command_for, handle};
use crate::json::{Command, Envelope, SocketRequest};
use vstd::prelude::*;

verus! {

/// Identity of one live connection: the peer's IP address, as 128 bits, and its port.
#[derive(Clone, Copy, Debug, PartialEq, Eq, Hash, Structural)]
pub struct Address {
    pub ip: u128,
    pub port: u16,
}

/// A session whose last heartbeat is older than this many time units is dead.
pub const HEARTBEAT_LIMIT: u64 = 45;

/// The time units between two heartbeat ticks of a connection.
pub const HEARTBEAT_EVERY: u64 = 20;

/// The time units that passed from `since` to `now`; none if `now` is the earlier.
pub open spec fn elapsed(now: u64, since: u64) -> int {
    if now >= since {
        now - since
    } else {
        0
    }
}

/// The close signal: tells a connection task to end.
pub open spec fn close_signal() -> Envelope {
    Envelope { opcode: 8, d: None }
}

/// The request to send a transport ping.
pub open spec fn ping_signal() -> Envelope {
    Envelope { opcode: 9, d: None }
}

/// One live connection, as the command actor knows it.
#[derive(Debug)]
pub struct SocketSession {
    pub addr: Address,
    /// When the last heartbeat was received.
    pub hb: u64,
    pub name: Option<String>,
}

impl SocketSession {
    /// A session that was accepted at `now`, not yet named.
    pub fn new(addr: Address, now: u64) -> (session: Self)
        ensures
            session.addr == addr,
            session.hb == now,
            session.name is None,
    {
        Self { addr, hb: now, name: None }
    }

    /// The heartbeat tick. A session that has answered within the limit is
    /// owed a ping (`Ok`); one that has not is to be closed (`Err`).
    pub fn heartbeat(&self, now: u64) -> (res: Result<SocketRequest, SocketRequest>)
        ensures
            elapsed(now, self.hb) > HEARTBEAT_LIMIT ==> res is Err && res->Err_0@ == close_signal(),
            elapsed(now, self.hb) <= HEARTBEAT_LIMIT ==> res is Ok && res->Ok_0@ == ping_signal(),
    {
        if now >= self.hb && now - self.hb > HEARTBEAT_LIMIT {
            return Err(SocketRequest { opcode: 8, d: None });
        }
        Ok(SocketRequest { opcode: 9, d: None })
    }

    /// Records a heartbeat received at `now`.
    pub fn refresh_hb(&mut self, now: u64)
        ensures
            final(self).hb == now,
            final(self).addr == old(self).addr,
            final(self).name == old(self).name,
    {
        self.hb = now;
    }
}

/// What a connection's transport hands to its task.
#[derive(Debug)]
pub enum Event {
    /// A data frame: the message in it, or nothing where it holds none.
    Data(Option<SocketRequest>),
    Ping,
    Pong,
    Error,
    Close,
}

/// What a connection task does next.
#[derive(Debug)]
pub enum Reaction {
    /// Nothing; the task goes on.
    Idle,
    /// Puts the command into the actor's queue; the task goes on.
    Forward(Command),
    /// Answers a transport ping with a pong; the task goes on.
    Pong,
    /// Sends a transport ping; the task goes on.
    Ping,
    /// Writes the message to the socket; the task goes on.
    Write(SocketRequest),
    /// Puts the message into the session's own outbound channel; the task goes on.
    Deliver(SocketRequest),
    /// Puts the command into the actor's queue and ends the task.
    Stop(Command),
}

/// What a transport event leads to. A message is forwarded as the command
/// that it stands for; a frame without one is passed over. A ping is answered
/// on the spot, a pong counts as a heartbeat, and an error or a close ends the
/// task with the removal of the session.
pub open spec fn client_reaction(addr: Address, event: Event) -> Reaction {
    match event {
        Event::Data(Some(message)) => match command_for(addr, message) {
            Some(command) => Reaction::Forward(command),
            None => Reaction::Idle,
        },
        Event::Data(None) => Reaction::Idle,
        Event::Ping => Reaction::Pong,
        Event::Pong => Reaction::Idle,
        Event::Error => Reaction::Stop(Command::RemoveUser { addr }),
        Event::Close => Reaction::Stop(Command::RemoveUser { addr }),
    }
}

/// What a message from the session's outbound channel leads to: the close
/// signal ends the task with the removal of the session, the ping signal
/// becomes a transport ping, and any other message goes out on the socket.
pub open spec fn outbound_reaction(addr: Address, message: SocketRequest) -> Reaction {
    if message.opcode == 8 {
        Reaction::Stop(Command::RemoveUser { addr })
    } else if message.opcode == 9 {
        Reaction::Ping
    } else {
        Reaction::Write(message)
    }
}

/// Decides what the task of a connection does with a transport event that
/// came at `now`.
pub fn handle_client(session: &mut SocketSession, event: Event, now: u64) -> (reaction: Reaction)
    ensures
        reaction == client_reaction(old(session).addr, event),
        final(session).addr == old(session).addr,
        final(session).name == old(session).name,
        final(session).hb == if event is Pong {
            now
        } else {
            old(session).hb
        },
{
    match event {
        Event::Data(Some(message)) => match handle(session.addr, message) {
            Some(command) => Reaction::Forward(command),
            None => Reaction::Idle,
        },
        Event::Data(None) => Reaction::Idle,
        Event::Ping => Reaction::Pong,
        Event::Pong => {
            session.refresh_hb(now);
            Reaction::Idle
        },
        Event::Error => Reaction::Stop(Command::RemoveUser { addr: session.addr }),
        Event::Close => Reaction::Stop(Command::RemoveUser { addr: session.addr }),
    }
}

/// Decides what the task of the connection at `addr` does with a message
/// from its outbound channel.
pub fn handle_outbound(addr: Address, message: SocketRequest) -> (reaction: Reaction)
    ensures
        reaction == outbound_reaction(addr, message),
{
    if message.opcode == 8 {
        Reaction::Stop(Command::RemoveUser { addr })
    } else if message.opcode == 9 {
        Reaction::Ping
    } else {
        Reaction::Write(message)
    }
}

/// Decides what the task of a connection does on its heartbeat tick at
/// `now`: a session that is alive gets the ping signal into its own channel,
/// and one that is not ends with its removal.
pub fn handle_tick(session: &SocketSession, now: u64) -> (reaction: Reaction)
    ensures
        elapsed(now, session.hb) > HEARTBEAT_LIMIT ==> reaction == Reaction::Stop(
            Command::RemoveUser { addr: session.addr },
        ),
        elapsed(now, session.hb) <= HEARTBEAT_LIMIT ==> reaction is Deliver && reaction->Deliver_0@
            == ping_signal(),
{
    match session.heartbeat(now) {
        Ok(ping) => Reaction::Deliver(ping),
        Err(_) => Reaction::Stop(Command::RemoveUser { addr: session.addr }),
    }
}

} // verus!
