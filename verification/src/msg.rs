//! The typed actions that a dispatcher hands to the game, and the
//! projection of the game record that a query returns.

use vstd::prelude::*;
use crate::error::Action;
use crate::state::{name_of, Cell, StateView};

verus! {

/// The action that sets the game up.
#[derive(Clone, Copy, Debug, PartialEq, Eq, Structural)]
pub enum InitMsg {
    CreateGame { bet: u64, timeout: u64 },
}

/// The actions of a running game.
#[derive(Clone, Copy, Debug, PartialEq, Eq, Structural)]
pub enum HandleMsg {
    Quess { index: u8 },
    Join { secret: u64 },
    Rematch {  },
    Withdraw {  },
    Timeout {  },
}

impl HandleMsg {
    /// The kind of action that the message asks for.
    pub open spec fn kind(self) -> Action {
        match self {
            HandleMsg::Quess { .. } => Action::Quess,
            HandleMsg::Join { .. } => Action::Join,
            HandleMsg::Rematch {  } => Action::Rematch,
            HandleMsg::Withdraw {  } => Action::Withdraw,
            HandleMsg::Timeout {  } => Action::Timeout,
        }
    }

    /// The kind of action that the message asks for.
    pub fn action(&self) -> (kind: Action)
        ensures
            kind == self.kind(),
    {
        match self {
            HandleMsg::Quess { .. } => Action::Quess,
            HandleMsg::Join { .. } => Action::Join,
            HandleMsg::Rematch {  } => Action::Rematch,
            HandleMsg::Withdraw {  } => Action::Withdraw,
            HandleMsg::Timeout {  } => Action::Timeout,
        }
    }
}

/// The read-only requests.
#[derive(Clone, Copy, Debug, PartialEq, Eq, Structural)]
pub enum QueryMsg {
    GetBoard {  },
}

/// What any caller may see of the game record. The mine index has no place
/// in it.
#[derive(Clone, Debug, PartialEq, Eq)]
pub struct QueryResponse {
    pub board: [Cell; 25],
    pub game_over: bool,
    pub winner: Option<String>,
    pub player_a: Option<String>,
    pub player_b: Option<String>,
    pub player_a_wants_rematch: bool,
    pub player_b_wants_rematch: bool,
    pub turn: Option<String>,
    pub bet: u64,
    pub timeout: u64,
    pub player_a_timed_out: bool,
    pub player_b_timed_out: bool,
    pub last_action_timestamp: Option<u64>,
}

/// A query response as a mathematical value.
pub struct QueryResponseView {
    pub board: Seq<Cell>,
    pub game_over: bool,
    pub winner: Option<Seq<char>>,
    pub player_a: Option<Seq<char>>,
    pub player_b: Option<Seq<char>>,
    pub player_a_wants_rematch: bool,
    pub player_b_wants_rematch: bool,
    pub turn: Option<Seq<char>>,
    pub bet: u64,
    pub timeout: u64,
    pub player_a_timed_out: bool,
    pub player_b_timed_out: bool,
    pub last_action_timestamp: Option<u64>,
}

impl View for QueryResponse {
    type V = QueryResponseView;

    open spec fn view(&self) -> QueryResponseView {
        QueryResponseView {
            board: self.board@,
            game_over: self.game_over,
            winner: name_of(self.winner),
            player_a: name_of(self.player_a),
            player_b: name_of(self.player_b),
            player_a_wants_rematch: self.player_a_wants_rematch,
            player_b_wants_rematch: self.player_b_wants_rematch,
            turn: name_of(self.turn),
            bet: self.bet,
            timeout: self.timeout,
            player_a_timed_out: self.player_a_timed_out,
            player_b_timed_out: self.player_b_timed_out,
            last_action_timestamp: self.last_action_timestamp,
        }
    }
}

/// The public projection of a game record: everything but the mine index
/// and the last guess.
pub open spec fn projection(g: StateView) -> QueryResponseView {
    QueryResponseView {
        board: g.board,
        game_over: g.game_over,
        winner: g.winner,
        player_a: g.player_a,
        player_b: g.player_b,
        player_a_wants_rematch: g.player_a_wants_rematch,
        player_b_wants_rematch: g.player_b_wants_rematch,
        turn: g.turn,
        bet: g.bet,
        timeout: g.timeout,
        player_a_timed_out: g.player_a_timed_out,
        player_b_timed_out: g.player_b_timed_out,
        last_action_timestamp: g.last_action_timestamp,
    }
}

} // verus!
