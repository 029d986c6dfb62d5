//! The persisted game record, its mathematical model and its invariant.

use vstd::prelude::*;
use crate::rules::{restarted, seated_second};

verus! {

/// Number of cells on the board.
pub const BOARD_SIZE: usize = 25;

/// Shortest timeout window a game may be created with.
pub const MIN_TIMEOUT: u64 = 30;

/// Longest timeout window a game may be created with.
pub const MAX_TIMEOUT: u64 = 300;

/// What the players can see of one board position.
#[derive(Clone, Copy, Debug, PartialEq, Eq, Structural)]
pub enum Cell {
    Unrevealed,
    RevealedSafe,
    RevealedMine,
}

impl Cell {
    /// The number under which a cell state is stored and shown: 0 for an
    /// unrevealed cell, 1 for a safe one, 2 for the mine.
    pub open spec fn code_of(self) -> u8 {
        match self {
            Cell::Unrevealed => 0,
            Cell::RevealedSafe => 1,
            Cell::RevealedMine => 2,
        }
    }

    /// The number that stands for this cell state.
    pub fn code(self) -> (c: u8)
        ensures
            c == self.code_of(),
    {
        match self {
            Cell::Unrevealed => 0,
            Cell::RevealedSafe => 1,
            Cell::RevealedMine => 2,
        }
    }

    /// The cell state that `c` stands for, if it stands for one.
    pub fn from_code(c: u8) -> (cell: Option<Cell>)
        ensures
            c <= 2 <==> cell is Some,
            cell matches Some(found) ==> found.code_of() == c,
    {
        if c == 0 {
            Some(Cell::Unrevealed)
        } else if c == 1 {
            Some(Cell::RevealedSafe)
        } else if c == 2 {
            Some(Cell::RevealedMine)
        } else {
            None
        }
    }
}

/// The numbers that stand for the cells of `board`, in order.
pub fn board_codes(board: &[Cell; 25]) -> (codes: [u8; 25])
    ensures
        forall|i: int| 0 <= i < BOARD_SIZE ==> #[trigger] codes@[i] == board@[i].code_of(),
{
    let mut codes = [0u8;25];
    let mut k: usize = 0;
    while k < BOARD_SIZE
        invariant
            k <= BOARD_SIZE,
            forall|i: int| 0 <= i < k ==> #[trigger] codes@[i] == board@[i].code_of(),
        decreases BOARD_SIZE - k,
    {
        codes[k] = board[k].code();
        k += 1;
    }
    codes
}

/// The board that `codes` stand for, if every one of them stands for a
/// cell state.
pub fn board_from_codes(codes: &[u8; 25]) -> (board: Option<[Cell; 25]>)
    ensures
        board is Some <==> forall|i: int| 0 <= i < BOARD_SIZE ==> #[trigger] codes@[i] <= 2,
        board matches Some(cells) ==> forall|i: int|
            0 <= i < BOARD_SIZE ==> #[trigger] cells@[i].code_of() == codes@[i],
{
    let mut cells = [Cell::Unrevealed;25];
    let mut k: usize = 0;
    while k < BOARD_SIZE
        invariant
            k <= BOARD_SIZE,
            forall|i: int| 0 <= i < k ==> #[trigger] codes@[i] <= 2,
            forall|i: int| 0 <= i < k ==> #[trigger] cells@[i].code_of() == codes@[i],
        decreases BOARD_SIZE - k,
    {
        match Cell::from_code(codes[k]) {
            Some(cell) => {
                cells[k] = cell;
            },
            None => {
                assert(codes@[k as int] > 2);
                return None;
            },
        }
        k += 1;
    }
    Some(cells)
}

/// The single persisted game record.
#[derive(Clone, Debug, PartialEq, Eq)]
pub struct State {
    pub board: [Cell; 25],
    pub mine_index: Option<u8>,
    pub bet: u64,
    pub player_a: Option<String>,
    pub player_b: Option<String>,
    pub player_a_wants_rematch: bool,
    pub player_b_wants_rematch: bool,
    pub turn: Option<String>,
    pub last_quess: Option<u8>,
    pub game_over: bool,
    pub winner: Option<String>,
    pub last_action_timestamp: Option<u64>,
    pub player_a_timed_out: bool,
    pub player_b_timed_out: bool,
    pub timeout: u64,
}

/// The game record as a mathematical value: identities are character
/// sequences and the board is a sequence of cells.
pub struct StateView {
    pub board: Seq<Cell>,
    pub mine_index: Option<u8>,
    pub bet: u64,
    pub player_a: Option<Seq<char>>,
    pub player_b: Option<Seq<char>>,
    pub player_a_wants_rematch: bool,
    pub player_b_wants_rematch: bool,
    pub turn: Option<Seq<char>>,
    pub last_quess: Option<u8>,
    pub game_over: bool,
    pub winner: Option<Seq<char>>,
    pub last_action_timestamp: Option<u64>,
    pub player_a_timed_out: bool,
    pub player_b_timed_out: bool,
    pub timeout: u64,
}

/// The character sequence of an optional identity.
pub open spec fn name_of(who: Option<String>) -> Option<Seq<char>> {
    match who {
        Some(s) => Some(s@),
        None => None,
    }
}

/// A board on which nothing has been revealed.
pub open spec fn blank_board() -> Seq<Cell> {
    Seq::new(BOARD_SIZE as nat, |i: int| Cell::Unrevealed)
}

impl View for State {
    type V = StateView;

    open spec fn view(&self) -> StateView {
        StateView {
            board: self.board@,
            mine_index: self.mine_index,
            bet: self.bet,
            player_a: name_of(self.player_a),
            player_b: name_of(self.player_b),
            player_a_wants_rematch: self.player_a_wants_rematch,
            player_b_wants_rematch: self.player_b_wants_rematch,
            turn: name_of(self.turn),
            last_quess: self.last_quess,
            game_over: self.game_over,
            winner: name_of(self.winner),
            last_action_timestamp: self.last_action_timestamp,
            player_a_timed_out: self.player_a_timed_out,
            player_b_timed_out: self.player_b_timed_out,
            timeout: self.timeout,
        }
    }
}

impl StateView {
    /// Both seats are taken, so a round has been dealt.
    pub open spec fn started(self) -> bool {
        self.player_a is Some && self.player_b is Some
    }

    /// `who` names one of the seated players.
    pub open spec fn is_seated(self, who: Option<Seq<char>>) -> bool {
        who is Some && (who == self.player_a || who == self.player_b)
    }

    /// What the invariant asks of the seats, the round and the flags, the
    /// board left aside.
    pub open spec fn round_ok(self) -> bool {
        &&& self.bet > 0
        &&& MIN_TIMEOUT <= self.timeout <= MAX_TIMEOUT
        // seats
        &&& (self.player_b is Some ==> self.player_a is Some)
        &&& (self.started() ==> self.player_a != self.player_b)
        // a round is dealt exactly while both seats are taken
        &&& (self.mine_index is Some <==> self.started())
        &&& (self.mine_index matches Some(m) ==> (m as int) < BOARD_SIZE)
        &&& (self.turn is Some <==> self.started())
        &&& (self.turn is Some ==> self.is_seated(self.turn))
        // the end of a round
        &&& (self.game_over ==> self.started())
        &&& (self.winner is Some <==> self.game_over)
        &&& (self.game_over ==> self.is_seated(self.winner) && self.winner != self.turn)
        &&& (self.last_action_timestamp is Some <==> self.started() && !self.game_over)
        // pledges and forfeits belong to a finished round
        &&& (self.player_a_wants_rematch || self.player_b_wants_rematch ==> self.game_over)
        &&& !(self.player_a_wants_rematch && self.player_b_wants_rematch)
        &&& (self.player_a_timed_out ==> self.game_over && self.winner == self.player_b)
        &&& (self.player_b_timed_out ==> self.game_over && self.winner == self.player_a)
        &&& (!self.started() ==> self.last_quess is None)
    }

    /// A mine may show only where the mine lies, and only once a guess has
    /// ended the round.
    pub open spec fn mine_allowed_at(self, i: int) -> bool {
        &&& self.game_over
        &&& self.mine_index == Some(i as u8)
        &&& !self.player_a_timed_out
        &&& !self.player_b_timed_out
    }

    /// What the invariant asks of the cell where the mine lies and of the
    /// cell guessed last.
    pub open spec fn marks_ok(self) -> bool {
        &&& (self.mine_index matches Some(m) ==> {
            &&& self.board[m as int] != Cell::RevealedSafe
            &&& (self.game_over && !self.player_a_timed_out && !self.player_b_timed_out
                ==> self.board[m as int] == Cell::RevealedMine)
        })
        &&& (self.last_quess matches Some(q) ==> (q as int) < BOARD_SIZE && self.board[q as int]
            != Cell::Unrevealed)
    }

    /// The invariant of the game record. Every action the library offers
    /// keeps it, and `init` establishes it.
    pub open spec fn wf(self) -> bool {
        &&& self.board.len() == BOARD_SIZE
        &&& self.round_ok()
        &&& self.marks_ok()
        &&& (forall|i: int|
            0 <= i < self.board.len() && #[trigger] self.board[i] == Cell::RevealedMine
                ==> self.mine_allowed_at(i))
        &&& (!self.started() ==> self.board =~= blank_board())
    }
}

/// Whether `slot` holds the identity `who`.
pub fn holds(slot: &Option<String>, who: &String) -> (r: bool)
    ensures
        r == (name_of(*slot) == Some(who@)),
{
    match slot {
        Some(name) => *name == *who,
        None => false,
    }
}

/// Whether two optional identities are the same.
pub fn same_name(left: &Option<String>, right: &Option<String>) -> (r: bool)
    ensures
        r == (name_of(*left) == name_of(*right)),
{
    match (left, right) {
        (Some(l), Some(r)) => *l == *r,
        (None, None) => true,
        _ => false,
    }
}

impl State {
    /// The invariant of the game record, on the record itself.
    pub open spec fn wf(&self) -> bool {
        self@.wf()
    }

    /// Tests the part of the invariant that does not look at the board.
    fn round_is_ok(&self) -> (ok: bool)
        ensures
            ok == self@.round_ok(),
    {
        let started = self.player_a.is_some() && self.player_b.is_some();
        let turn_seated = same_name(&self.turn, &self.player_a) || same_name(
            &self.turn,
            &self.player_b,
        );
        let winner_seated = same_name(&self.winner, &self.player_a) || same_name(
            &self.winner,
            &self.player_b,
        );
        let mine_on_board = match self.mine_index {
            Some(m) => (m as usize) < BOARD_SIZE,
            None => true,
        };
        let terms_ok = self.bet > 0 && MIN_TIMEOUT <= self.timeout && self.timeout <= MAX_TIMEOUT;
        let seats_ok = (self.player_b.is_none() || self.player_a.is_some()) && (!started
            || !same_name(&self.player_a, &self.player_b));
        let deal_ok = self.mine_index.is_some() == started && mine_on_board
            && self.turn.is_some() == started && (self.turn.is_none() || turn_seated);
        let end_ok = (!self.game_over || started) && self.winner.is_some() == self.game_over
            && (!self.game_over || (winner_seated && !same_name(&self.winner, &self.turn)))
            && self.last_action_timestamp.is_some() == (started && !self.game_over);
        let pledges_ok = (!(self.player_a_wants_rematch || self.player_b_wants_rematch)
            || self.game_over) && !(self.player_a_wants_rematch && self.player_b_wants_rematch);
        let forfeits_ok = (!self.player_a_timed_out || (self.game_over && same_name(
            &self.winner,
            &self.player_b,
        ))) && (!self.player_b_timed_out || (self.game_over && same_name(
            &self.winner,
            &self.player_a,
        )));
        let last_ok = started || self.last_quess.is_none();
        terms_ok && seats_ok && deal_ok && end_ok && pledges_ok && forfeits_ok && last_ok
    }

    /// Tests what the invariant asks of the mine's cell and of the cell
    /// guessed last.
    fn marks_are_ok(&self) -> (ok: bool)
        requires
            self@.round_ok(),
        ensures
            ok == self@.marks_ok(),
    {
        let mine_ok = match self.mine_index {
            Some(m) => {
                let cell = self.board[m as usize];
                cell != Cell::RevealedSafe && (!(self.game_over && !self.player_a_timed_out
                    && !self.player_b_timed_out) || cell == Cell::RevealedMine)
            },
            None => true,
        };
        let last_ok = match self.last_quess {
            Some(q) => (q as usize) < BOARD_SIZE && self.board[q as usize] != Cell::Unrevealed,
            None => true,
        };
        mine_ok && last_ok
    }

    /// Tests the invariant. A record that was not made by this library,
    /// one read back from storage for instance, is to be tested before any
    /// action is applied to it.
    pub fn is_wf(&self) -> (ok: bool)
        ensures
            ok == self.wf(),
    {
        if !self.round_is_ok() {
            return false;
        }
        if !self.marks_are_ok() {
            return false;
        }
        let started = self.player_a.is_some() && self.player_b.is_some();
        let unforced = self.game_over && !self.player_a_timed_out && !self.player_b_timed_out;
        let mut k: usize = 0;
        while k < BOARD_SIZE
            invariant
                k <= BOARD_SIZE,
                started == self@.started(),
                unforced == (self.game_over && !self.player_a_timed_out
                    && !self.player_b_timed_out),
                forall|i: int|
                    0 <= i < k && #[trigger] self@.board[i] == Cell::RevealedMine
                        ==> self@.mine_allowed_at(i),
                forall|i: int| 0 <= i < k && !started ==> #[trigger] self@.board[i] == Cell::Unrevealed,
            decreases BOARD_SIZE - k,
        {
            let cell = self.board[k];
            if cell == Cell::RevealedMine {
                let here = match self.mine_index {
                    Some(m) => m as usize == k,
                    None => false,
                };
                if !(unforced && here) {
                    assert(!self@.mine_allowed_at(k as int));
                    assert(self@.board[k as int] == Cell::RevealedMine);
                    return false;
                }
            }
            if !started && cell != Cell::Unrevealed {
                assert(self@.board[k as int] != blank_board()[k as int]);
                return false;
            }
            k += 1;
        }
        assert(!started ==> self@.board =~= blank_board());
        true
    }

    /// Seats `who` as the second player at time `now`, with the mine
    /// placed at `mine`. The newcomer moves first.
    pub fn seat_second(&mut self, who: String, mine: u8, now: u64)
        ensures
            final(self)@ == seated_second(old(self)@, who@, mine, now),
    {
        self.turn = Some(who.clone());
        self.player_b = Some(who);
        self.mine_index = Some(mine);
        self.last_action_timestamp = Some(now);
    }

    /// Starts a new round with the mine at `mine`, dealt at time `now`.
    pub fn restart(&mut self, mine: u8, now: u64)
        ensures
            final(self)@ == restarted(old(self)@, mine, now),
    {
        self.board = [Cell::Unrevealed;25];
        self.mine_index = Some(mine);
        self.player_a_wants_rematch = false;
        self.player_b_wants_rematch = false;
        self.turn = self.winner.clone();
        self.last_quess = None;
        self.game_over = false;
        self.winner = None;
        self.player_a_timed_out = false;
        self.player_b_timed_out = false;
        self.last_action_timestamp = Some(now);
        assert(self@.board =~= blank_board());
    }
}

} // verus!
