use crate::json::{Envelope, EventData, Payload, SocketRequest};
use crate::server::session::{close_signal, elapsed, Address, SocketSession};
use crate::server::{parcels, send_message, Delivery, Parcel};
use vstd::array::{spec_array_fill_for_copy_type, spec_array_update};
use vstd::prelude::*;
use vstd::string::StringExecFns;

verus! {

/// The player to move is closed once a turn has lasted longer than this many time units.
pub const TURN_LIMIT: u64 = 30;

/// The mark that a seat plays.
pub open spec fn mark_of(is_player1: bool) -> char {
    if is_player1 {
        'X'
    } else {
        'O'
    }
}

/// Three cells make a line when they hold the same mark.
pub open spec fn is_line(a: char, b: char, c: char) -> bool {
    a == b && b == c && a != ' '
}

/// The cells of the eight lines: rows 0 to 2, columns 3 to 5, diagonals 6 and 7.
pub open spec fn line(k: int) -> (int, int, int) {
    if k == 0 {
        (0, 1, 2)
    } else if k == 1 {
        (3, 4, 5)
    } else if k == 2 {
        (6, 7, 8)
    } else if k == 3 {
        (0, 3, 6)
    } else if k == 4 {
        (1, 4, 7)
    } else if k == 5 {
        (2, 5, 8)
    } else if k == 6 {
        (0, 4, 8)
    } else {
        (2, 4, 6)
    }
}

/// Line `k` of the board is filled with one mark.
pub open spec fn line_wins(board: Seq<char>, k: int) -> bool {
    is_line(board[line(k).0], board[line(k).1], board[line(k).2])
}

/// Some line of the board is filled with one mark.
pub open spec fn board_wins(board: Seq<char>) -> bool {
    exists|k: int| 0 <= k < 8 && #[trigger] line_wins(board, k)
}

/// No cell of the board is empty.
pub open spec fn board_full(board: Seq<char>) -> bool {
    forall|i: int| 0 <= i < 9 ==> board[i] != ' '
}

/// The board has nine cells, each empty or marked by a seat.
pub open spec fn board_ok(board: Seq<char>) -> bool {
    &&& board.len() == 9
    &&& forall|i: int| 0 <= i < 9 ==> board[i] == ' ' || board[i] == 'X' || board[i] == 'O'
}

/// The board before the first move.
pub open spec fn empty_board() -> Seq<char> {
    Seq::new(9, |i: int| ' ')
}

/// How a game stands after a move of the given seat: 1 or 2 where the mover
/// has won, 3 for a draw, nothing while the game goes on. A line counts before
/// a full board does.
pub open spec fn status_after(board: Seq<char>, is_player1: bool) -> Option<u8> {
    if board_wins(board) {
        Some(
            if is_player1 {
                1u8
            } else {
                2u8
            },
        )
    } else if board_full(board) {
        Some(3u8)
    } else {
        None
    }
}

/// The envelope of a domain error with the given text.
pub open spec fn error_notice(text: Seq<char>) -> Envelope {
    Envelope { opcode: 1007, d: Some(Payload::Message(text)) }
}

/// The envelope reports a domain error.
pub open spec fn is_domain_error(envelope: Envelope) -> bool {
    envelope.opcode == 1007 && envelope.d matches Some(Payload::Message(_))
}

/// The envelope that ends a game with the given status.
pub open spec fn end_notice(status: u8) -> Envelope {
    Envelope { opcode: 11, d: Some(Payload::EndRoom { status }) }
}

/// Why a move is refused, if it is: the text of the error.
pub open spec fn mark_refusal(room: Room, is_player1: bool, position: usize) -> Option<Seq<char>> {
    if position >= 9 {
        Some("invalid position"@)
    } else if room.player1_turn != is_player1 {
        Some("not your turn"@)
    } else if room.tray@[position as int] != ' ' {
        Some("position already taken"@)
    } else {
        None
    }
}

/// The seat is taken by the session at `addr`.
pub open spec fn seat_holds(player: Option<SocketSession>, addr: Address) -> bool {
    player matches Some(session) && session.addr == addr
}

/// A match: a board, two seats, and whose turn it is.
#[derive(Debug)]
pub struct Room {
    pub tray: [char; 9],
    pub player1: Option<SocketSession>,
    pub player2: Option<SocketSession>,
    pub player1_turn: bool,
    /// When the running turn began; nothing before the first move of a round.
    pub duration_turn: Option<u64>,
    /// The join code of a private room; a public room has none.
    pub code: Option<String>,
    pub name: String,
}

impl Room {
    /// The room's invariant: its board holds nothing but marks and empty cells.
    pub open spec fn wf(self) -> bool {
        board_ok(self.tray@)
    }

    /// A fresh room with the given occupants.
    pub open spec fn fresh(
        player1: Option<SocketSession>,
        player2: Option<SocketSession>,
        code: Option<String>,
        name: String,
    ) -> Room {
        Room {
            tray: spec_array_fill_for_copy_type::<char, 9>(' '),
            player1,
            player2,
            player1_turn: true,
            duration_turn: None,
            code,
            name,
        }
    }

    /// The room as a new round finds it: board cleared, seat 1 to move, no turn
    /// running; seats, code and name as they are.
    pub open spec fn cleared(self) -> Room {
        Room::fresh(self.player1, self.player2, self.code, self.name)
    }

    /// The room with the given cell marked by the given seat.
    pub open spec fn marked(self, is_player1: bool, position: usize) -> Room {
        Room { tray: spec_array_update(self.tray, position as int, mark_of(is_player1)), ..self }
    }

    /// The room with the turn handed over at `now`.
    pub open spec fn turned(self, now: u64) -> Room {
        Room { duration_turn: Some(now), player1_turn: !self.player1_turn, ..self }
    }

    /// One of the two seats holds the session at `addr`.
    pub open spec fn seats(self, addr: Address) -> bool {
        seat_holds(self.player1, addr) || seat_holds(self.player2, addr)
    }

    /// A seat is free.
    pub open spec fn available(self) -> bool {
        self.player1 is None || self.player2 is None
    }

    /// What [`Room::reply_event`] queues: the event for both seats, seat 1 first,
    /// where both are taken.
    pub open spec fn replies(self, event: Envelope) -> Seq<Parcel> {
        if self.player1 is Some && self.player2 is Some {
            seq![
                Parcel { to: self.player1->0.addr, message: event },
                Parcel { to: self.player2->0.addr, message: event },
            ]
        } else {
            Seq::empty()
        }
    }

    /// The session that is to move.
    pub open spec fn mover(self) -> Option<SocketSession> {
        if self.player1_turn {
            self.player1
        } else {
            self.player2
        }
    }

    /// The running turn has lasted longer than the limit.
    pub open spec fn overdue(self, now: u64) -> bool {
        self.duration_turn matches Some(since) && elapsed(now, since) > TURN_LIMIT
    }

    /// What [`Room::timer`] queues: the close signal for the player to move,
    /// where the turn is overdue.
    pub open spec fn timeouts(self, now: u64) -> Seq<Parcel> {
        if self.overdue(now) && self.mover() is Some {
            seq![Parcel { to: self.mover()->0.addr, message: close_signal() }]
        } else {
            Seq::empty()
        }
    }

    /// A room before its first round, with the given occupants.
    pub fn new(
        player1: Option<SocketSession>,
        player2: Option<SocketSession>,
        code: Option<String>,
        name: String,
    ) -> (room: Self)
        ensures
            room == Room::fresh(player1, player2, code, name),
            room.tray@ == empty_board(),
            room.wf(),
    {
        let room = Self {
            tray: [' ';9],
            player1,
            player2,
            player1_turn: true,
            duration_turn: None,
            code,
            name,
        };
        assert(room.tray@ =~= empty_board());
        room
    }

    /// Starts a new round: clears the board and the turn state, keeps the seats.
    pub fn reset(self) -> (room: Self)
        ensures
            room == self.cleared(),
            room.tray@ == empty_board(),
            room.player1_turn,
            room.duration_turn is None,
            room.player1 == self.player1,
            room.player2 == self.player2,
            room.code == self.code,
            room.name == self.name,
            room.wf(),
    {
        Self::new(self.player1, self.player2, self.code, self.name)
    }

    /// Whether a seat is free.
    pub fn is_available(&self) -> (free: bool)
        ensures
            free == self.available(),
    {
        self.player1.is_none() || self.player2.is_none()
    }

    /// Whether one of the seats holds the session at `addr`.
    pub fn find_player(&self, addr: Address) -> (found: bool)
        ensures
            found == self.seats(addr),
    {
        is_player(&self.player1, addr) || is_player(&self.player2, addr)
    }

    /// Marks a cell for a seat. The move is refused, and the room left as it
    /// is, where the cell is off the board, the seat is not to move, or the
    /// cell is taken; the error says which, in that order.
    pub fn mark_position(&mut self, is_player1: bool, position: usize) -> (res: Result<
        (),
        SocketRequest,
    >)
        ensures
            match mark_refusal(*old(self), is_player1, position) {
                Some(text) => res is Err && res->Err_0@ == error_notice(text) && *final(self)
                    == *old(self),
                None => res is Ok && *final(self) == old(self).marked(is_player1, position)
                    && final(self).tray@ == old(self).tray@.update(
                    position as int,
                    mark_of(is_player1),
                ),
            },
            position > 8 ==> res is Err && is_domain_error(res->Err_0@) && *final(self) == *old(self),
            is_player1 != old(self).player1_turn ==> res is Err && is_domain_error(res->Err_0@)
                && *final(self) == *old(self),
            position <= 8 && old(self).tray@[position as int] != ' ' ==> res is Err
                && is_domain_error(res->Err_0@) && *final(self) == *old(self),
            old(self).wf() ==> final(self).wf(),
    {
        if position >= 9 {
            return Err(
                SocketRequest::new(
                    1007,
                    Some(EventData::Message(String::from_str("invalid position"))),
                ),
            );
        }
        if self.player1_turn != is_player1 {
            return Err(
                SocketRequest::new(1007, Some(EventData::Message(String::from_str("not your turn")))),
            );
        }
        if self.tray[position] != ' ' {
            return Err(
                SocketRequest::new(
                    1007,
                    Some(EventData::Message(String::from_str("position already taken"))),
                ),
            );
        }
        self.tray[position] = if is_player1 {
            'X'
        } else {
            'O'
        };
        assert(self.tray =~= spec_array_update(old(self).tray, position as int, mark_of(is_player1)));
        Ok(())
    }

    /// Whether no cell is empty.
    pub fn is_full(&self) -> (full: bool)
        ensures
            full == board_full(self.tray@),
    {
        let mut i: usize = 0;
        while i < 9
            invariant
                i <= 9,
                forall|j: int| 0 <= j < i ==> self.tray@[j] != ' ',
            decreases 9 - i,
        {
            if self.tray[i] == ' ' {
                return false;
            }
            i += 1;
        }
        true
    }

    /// Whether one of the three rows, three columns or two diagonals is filled
    /// with one mark.
    pub fn is_win(&self) -> (win: bool)
        ensures
            win == board_wins(self.tray@),
    {
        let mut i: usize = 0;
        while i < 3
            invariant
                i <= 3,
                forall|k: int| 0 <= k < i ==> !line_wins(self.tray@, k),
                forall|k: int| 3 <= k < 3 + i ==> !line_wins(self.tray@, k),
            decreases 3 - i,
        {
            if is_line_equal(self.tray[3 * i], self.tray[3 * i + 1], self.tray[3 * i + 2]) {
                assert(line_wins(self.tray@, i as int));
                return true;
            }
            if is_line_equal(self.tray[i], self.tray[i + 3], self.tray[i + 6]) {
                assert(line_wins(self.tray@, i + 3));
                return true;
            }
            i += 1;
        }
        if is_line_equal(self.tray[0], self.tray[4], self.tray[8]) {
            assert(line_wins(self.tray@, 6));
            return true;
        }
        if is_line_equal(self.tray[2], self.tray[4], self.tray[6]) {
            assert(line_wins(self.tray@, 7));
            return true;
        }
        false
    }

    /// How the game stands after a move of the given seat.
    pub fn status(&self, is_player1: bool) -> (status: Option<u8>)
        ensures
            status == status_after(self.tray@, is_player1),
    {
        if self.is_win() {
            Some(
                if is_player1 {
                    1
                } else {
                    2
                },
            )
        } else if self.is_full() {
            Some(3)
        } else {
            None
        }
    }

    /// One move: marks the cell, hands the turn over at `now`, and says how the
    /// game stands. A refused move leaves the room as it is. The turn is handed
    /// over whether or not the move ends the game.
    pub fn play(&mut self, is_player1: bool, position: usize, now: u64) -> (res: Result<
        Option<u8>,
        SocketRequest,
    >)
        ensures
            match mark_refusal(*old(self), is_player1, position) {
                Some(text) => res is Err && res->Err_0@ == error_notice(text) && *final(self)
                    == *old(self),
                None => res is Ok && *final(self) == old(self).marked(is_player1, position).turned(
                    now,
                ) && res->Ok_0 == status_after(final(self).tray@, is_player1),
            },
            res is Ok ==> final(self).player1_turn == !old(self).player1_turn
                && final(self).duration_turn == Some(now),
            old(self).wf() ==> final(self).wf(),
    {
        match self.mark_position(is_player1, position) {
            Err(e) => Err(e),
            Ok(()) => {
                self.refresh_turn(now);
                Ok(self.status(is_player1))
            },
        }
    }

    /// Queues an event for both seats; for neither while a seat is empty.
    pub fn reply_event(&self, event: SocketRequest, out: &mut Vec<Delivery>)
        ensures
            parcels(final(out)@) == parcels(old(out)@) + self.replies(event@),
    {
        match (&self.player1, &self.player2) {
            (Some(player1), Some(player2)) => {
                send_message(out, player1.addr, event.clone());
                send_message(out, player2.addr, event);
                assert(parcels(out@) =~= parcels(old(out)@) + self.replies(event@));
            },
            _ => {
                assert(parcels(out@) =~= parcels(old(out)@) + self.replies(event@));
            },
        }
    }

    /// Hands the turn over at `now`.
    pub fn refresh_turn(&mut self, now: u64)
        ensures
            *final(self) == old(self).turned(now),
    {
        self.duration_turn = Some(now);
        self.player1_turn = !self.player1_turn;
    }

    /// The turn-timer check: queues the close signal for the player to move
    /// where the running turn is overdue at `now`.
    pub fn timer(&self, now: u64, out: &mut Vec<Delivery>)
        ensures
            parcels(final(out)@) == parcels(old(out)@) + self.timeouts(now),
    {
        if let Some(since) = self.duration_turn {
            if now >= since && now - since > TURN_LIMIT {
                let player = if self.player1_turn {
                    &self.player1
                } else {
                    &self.player2
                };
                if let Some(session) = player {
                    send_message(out, session.addr, SocketRequest { opcode: 8, d: None });
                    assert(parcels(out@) =~= parcels(old(out)@) + self.timeouts(now));
                    return ;
                }
            }
        }
        assert(parcels(out@) =~= parcels(old(out)@) + self.timeouts(now));
    }
}

/// Whether three cells hold the same mark.
pub fn is_line_equal(a: char, b: char, c: char) -> (res: bool)
    ensures
        res == is_line(a, b, c),
{
    a == b && b == c && a != ' '
}

/// Whether the seat is taken by the session at `addr`.
pub fn is_player(player: &Option<SocketSession>, addr: Address) -> (res: bool)
    ensures
        res == seat_holds(*player, addr),
{
    match player {
        Some(session) => session.addr == addr,
        None => false,
    }
}

/// A board on which one of the eight lines is filled with a seat's mark is a
/// win, and where that seat has just moved the win is reported for it: status
/// 1 for seat 1, status 2 for seat 2.
pub proof fn lemma_filled_line_wins(board: Seq<char>, k: int, is_player1: bool)
    requires
        board.len() == 9,
        0 <= k < 8,
        board[line(k).0] == mark_of(is_player1),
        board[line(k).1] == mark_of(is_player1),
        board[line(k).2] == mark_of(is_player1),
        forall|j: int| 0 <= j < 8 && j != k ==> !line_wins(board, j),
    ensures
        board_wins(board),
        status_after(board, is_player1) == Some(
            if is_player1 {
                1u8
            } else {
                2u8
            },
        ),
{
    assert(line_wins(board, k));
}

/// Where an accepted move gives a board without a line its first line, that
/// line is filled with the mover's mark, and holds the cell of the move.
pub proof fn lemma_win_belongs_to_mover(room: Room, is_player1: bool, position: usize, k: int)
    requires
        room.wf(),
        mark_refusal(room, is_player1, position) is None,
        !board_wins(room.tray@),
        0 <= k < 8,
        line_wins(room.marked(is_player1, position).tray@, k),
    ensures
        room.marked(is_player1, position).tray@[line(k).0] == mark_of(is_player1),
        line(k).0 == position || line(k).1 == position || line(k).2 == position,
        status_after(room.marked(is_player1, position).tray@, is_player1) == Some(
            if is_player1 {
                1u8
            } else {
                2u8
            },
        ),
{
    let before = room.tray@;
    let after = room.marked(is_player1, position).tray@;
    assert(after == before.update(position as int, mark_of(is_player1)));
    assert(!line_wins(before, k));
}

/// A board without an empty cell and without a line is a draw, whoever moved
/// last: never a win.
pub proof fn lemma_full_board_without_line_is_draw(board: Seq<char>, is_player1: bool)
    requires
        board.len() == 9,
        board_full(board),
        !board_wins(board),
    ensures
        status_after(board, is_player1) == Some(3u8),
{
}

/// An accepted move flips the turn flag and starts the next turn at the time
/// of the move, whatever it does to the game.
pub proof fn lemma_move_hands_turn_over(room: Room, is_player1: bool, position: usize, now: u64)
    requires
        mark_refusal(room, is_player1, position) is None,
    ensures
        room.marked(is_player1, position).turned(now).player1_turn == !room.player1_turn,
        room.marked(is_player1, position).turned(now).duration_turn == Some(now),
        room.marked(is_player1, position).turned(now).tray@ == room.tray@.update(
            position as int,
            mark_of(is_player1),
        ),
{
}

/// The end of a round clears the board and the turn state and keeps both
/// seats, the code and the name.
pub proof fn lemma_cleared_room(room: Room)
    ensures
        room.cleared().tray@ == empty_board(),
        room.cleared().player1_turn,
        room.cleared().duration_turn is None,
        room.cleared().player1 == room.player1,
        room.cleared().player2 == room.player2,
        room.cleared().code == room.code,
        room.cleared().name == room.name,
        room.cleared().wf(),
{
    assert(room.cleared().tray@ =~= empty_board());
}

} // verus!
