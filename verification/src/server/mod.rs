use crate::commands::ownership::{lemma_new_session_keeps_lobby, lobby_wf, places};
use crate::commands::rooms::{room_deleted_notice, wire_id};
use crate::commands::{broadcast, code_suits, handle_outcome, notify_connections};
use crate::json::{Command, Envelope, EventData, SocketRequest};
use crate::server::room::Room;
use crate::server::session::{Address, SocketSession};
use crate::settings::AppSettings;
use vstd::prelude::*;

pub mod handshake;
pub mod room;
pub mod session;

verus! {

/// The time units between two sweeps of the turn timer.
pub const SWEEP_EVERY: u64 = 15;

/// A message on its way to the outbound channel of one session.
#[derive(Debug)]
pub struct Delivery {
    pub to: Address,
    pub message: SocketRequest,
}

/// What a [`Delivery`] says.
pub struct Parcel {
    pub to: Address,
    pub message: Envelope,
}

impl View for Delivery {
    type V = Parcel;

    open spec fn view(&self) -> Parcel {
        Parcel { to: self.to, message: self.message@ }
    }
}

/// The parcels of an outbox, in the order in which they were queued.
pub open spec fn parcels(out: Seq<Delivery>) -> Seq<Parcel> {
    Seq::new(out.len(), |i: int| out[i]@)
}

/// Queues `data` for the session at `to`, behind what `out` already holds.
pub fn send_message(out: &mut Vec<Delivery>, to: Address, data: SocketRequest)
    ensures
        parcels(final(out)@) == parcels(old(out)@).push(Parcel { to, message: data@ }),
{
    out.push(Delivery { to, message: data });
    assert(parcels(out@) =~= parcels(old(out)@).push(Parcel { to, message: data@ }));
}

/// What the turn-timer sweep queues for one room: for a room with both seats
/// taken, its timeout; for a room with both seats empty, the word to every
/// waiting session that the room is gone.
pub open spec fn sweep_room(room: Room, idx: int, queue: Seq<SocketSession>, now: u64) -> Seq<Parcel> {
    if room.player1 is Some && room.player2 is Some {
        room.timeouts(now)
    } else if room.player1 is None && room.player2 is None {
        broadcast(queue, room_deleted_notice(wire_id(idx)))
    } else {
        Seq::empty()
    }
}

/// What the turn-timer sweep queues: what it queues for each room, in the
/// order of the rooms.
pub open spec fn sweep_outcome(rooms: Seq<Room>, queue: Seq<SocketSession>, now: u64) -> Seq<Parcel>
    decreases rooms.len(),
{
    if rooms.len() == 0 {
        Seq::empty()
    } else {
        sweep_outcome(rooms.drop_last(), queue, now) + sweep_room(
            rooms.last(),
            rooms.len() - 1,
            queue,
            now,
        )
    }
}

/// The turn-timer sweep at `now`. It changes neither the rooms nor the queue:
/// a player whose turn is overdue gets the close signal, and leaves by the
/// way of every closed connection.
pub fn sweep(rooms: &Vec<Room>, queue: &Vec<SocketSession>, now: u64) -> (out: Vec<Delivery>)
    ensures
        parcels(out@) == sweep_outcome(rooms@, queue@, now),
{
    let mut out: Vec<Delivery> = Vec::new();
    assert(parcels(out@) =~= Seq::empty());
    let mut id: usize = 0;
    while id < rooms.len()
        invariant
            id <= rooms@.len(),
            parcels(out@) == sweep_outcome(rooms@.take(id as int), queue@, now),
        decreases rooms@.len() - id,
    {
        let room = &rooms[id];
        let ghost before = parcels(out@);
        if room.player1.is_some() && room.player2.is_some() {
            room.timer(now, &mut out);
        } else if room.player1.is_none() && room.player2.is_none() {
            notify_connections(
                SocketRequest::new(19, Some(EventData::RoomDeleted { id: (id % 256) as u8 })),
                queue,
                &mut out,
            );
        }
        assert(parcels(out@) =~= before + sweep_room(rooms@[id as int], id as int, queue@, now));
        assert(rooms@.take(id + 1).drop_last() =~= rooms@.take(id as int));
        id += 1;
    }
    assert(rooms@.take(id as int) =~= rooms@);
    out
}

/// What the command actor owns: the rooms and the queue of the sessions
/// that wait for one.
#[derive(Debug)]
pub struct App {
    pub settings: AppSettings,
    pub rooms: Vec<Room>,
    pub queue: Vec<SocketSession>,
}

impl App {
    /// The invariant of the state: no session is held in two places, and no
    /// board holds anything but marks and empty cells.
    pub open spec fn wf(self) -> bool {
        lobby_wf(self.rooms@, self.queue@)
    }

    /// A server without rooms and without sessions.
    pub fn new(settings: AppSettings) -> (app: Self)
        ensures
            app.settings == settings,
            app.rooms@.len() == 0,
            app.queue@.len() == 0,
            app.wf(),
    {
        let app = Self { settings, rooms: Vec::new(), queue: Vec::new() };
        assert forall|addr: Address| #[trigger] places(app.rooms@, app.queue@, addr) <= 1 by {}
        app
    }

    /// Registers the session of a connection that was accepted at `now`: it
    /// waits at the end of the queue, without a name.
    pub fn accept(&mut self, addr: Address, now: u64)
        ensures
            final(self).queue@ == old(self).queue@.push(SocketSession { addr, hb: now, name: None }),
            final(self).rooms == old(self).rooms,
            final(self).settings == old(self).settings,
            old(self).wf() && places(old(self).rooms@, old(self).queue@, addr) == 0 ==> final(self).wf(),
    {
        proof {
            if self.wf() && places(self.rooms@, self.queue@, addr) == 0 {
                lemma_new_session_keeps_lobby(
                    self.rooms@,
                    self.queue@,
                    SocketSession { addr, hb: now, name: None },
                );
            }
        }
        self.queue.push(SocketSession::new(addr, now));
    }

    /// Carries out the next command of the queue, at time `now`.
    pub fn handle(&mut self, command: Command, now: u64) -> (out: Vec<Delivery>)
        ensures
            final(self).settings == old(self).settings,
            old(self).wf() ==> final(self).wf(),
            exists|code: Option<String>|
                {
                    &&& code_suits(command, code)
                    &&& final(self).rooms@ == (#[trigger] handle_outcome(
                        command,
                        now,
                        old(self).rooms@,
                        old(self).queue@,
                        code,
                    )).rooms
                    &&& final(self).queue@ == handle_outcome(
                        command,
                        now,
                        old(self).rooms@,
                        old(self).queue@,
                        code,
                    ).queue
                    &&& parcels(out@) == handle_outcome(
                        command,
                        now,
                        old(self).rooms@,
                        old(self).queue@,
                        code,
                    ).sent
                },
    {
        crate::commands::handle(command, now, &mut self.rooms, &mut self.queue)
    }

    /// The turn-timer tick at `now`.
    pub fn tick(&self, now: u64) -> (out: Vec<Delivery>)
        ensures
            parcels(out@) == sweep_outcome(self.rooms@, self.queue@, now),
    {
        sweep(&self.rooms, &self.queue, now)
    }
}

} // verus!
