//! Why an action is rejected.

use vstd::prelude::*;
use vstd::string::StringExecFns;

verus! {

/// What is wrong with the funds attached to a call.
#[derive(Clone, Copy, Debug, PartialEq, Eq, Structural)]
pub enum WagerFault {
    /// No funds were attached, or the game was created with a zero bet.
    Missing,
    /// The first attached coin is not in the settlement denomination.
    WrongDenomination,
    /// The first attached coin is smaller than the bet.
    Insufficient,
}

/// Every reason for which an action is turned down. A rejected action leaves
/// the game record and the seed untouched.
#[derive(Clone, Copy, Debug, PartialEq, Eq, Structural)]
pub enum GameError {
    InvalidWager(WagerFault),
    InvalidTimeout,
    GameFull,
    AlreadyJoined,
    GameOver,
    NotAPlayer,
    NotYourTurn,
    InvalidIndex,
    AlreadyRevealed,
    TimedOut,
    GameNotStarted,
    NoTimestamp,
    TimeoutNotReached,
    GameNotOver,
    AlreadyPledged,
    WithdrawNotAllowed,
}

/// The kinds of action that can be rejected.
#[derive(Clone, Copy, Debug, PartialEq, Eq, Structural)]
pub enum Action {
    Create,
    Quess,
    Join,
    Rematch,
    Withdraw,
    Timeout,
}

impl GameError {
    /// The reason given to the caller whose `action` was rejected with this
    /// error.
    pub open spec fn reason(self, action: Action) -> Seq<char> {
        match self {
            GameError::InvalidWager(WagerFault::Missing) => "Bet is required"@,
            GameError::InvalidWager(WagerFault::WrongDenomination) => "Denom must be uscrt"@,
            GameError::InvalidWager(WagerFault::Insufficient) => "Insufficient amount sent"@,
            GameError::InvalidTimeout => "Timeout must be between 30 and 300 seconds"@,
            GameError::GameFull => "Game is full!"@,
            GameError::AlreadyJoined => "You have already joined!"@,
            GameError::GameOver => if action == Action::Timeout {
                "The game is over"@
            } else {
                "Game is over"@
            },
            GameError::NotAPlayer => if action == Action::Rematch {
                "You are not a player!"@
            } else {
                "You're not a player"@
            },
            GameError::NotYourTurn => "Not your turn"@,
            GameError::InvalidIndex => "Invalid quess"@,
            GameError::AlreadyRevealed => "Square already quessed"@,
            GameError::TimedOut => "Timed out"@,
            GameError::GameNotStarted => if action == Action::Timeout {
                "The game is not started yet"@
            } else {
                "The game is not started yet!"@
            },
            GameError::NoTimestamp => "No timestamp of last action found"@,
            GameError::TimeoutNotReached => "Timeout has not been reached yet"@,
            GameError::GameNotOver => "The game is not finished yet!"@,
            GameError::AlreadyPledged => "You have already requested a rematch"@,
            GameError::WithdrawNotAllowed => "Failed to withdraw"@,
        }
    }

    /// Words the rejection of `action` for the caller.
    pub fn describe(self, action: Action) -> (text: String)
        ensures
            text@ == self.reason(action),
    {
        let words = match self {
            GameError::InvalidWager(WagerFault::Missing) => "Bet is required",
            GameError::InvalidWager(WagerFault::WrongDenomination) => "Denom must be uscrt",
            GameError::InvalidWager(WagerFault::Insufficient) => "Insufficient amount sent",
            GameError::InvalidTimeout => "Timeout must be between 30 and 300 seconds",
            GameError::GameFull => "Game is full!",
            GameError::AlreadyJoined => "You have already joined!",
            GameError::GameOver => if action == Action::Timeout {
                "The game is over"
            } else {
                "Game is over"
            },
            GameError::NotAPlayer => if action == Action::Rematch {
                "You are not a player!"
            } else {
                "You're not a player"
            },
            GameError::NotYourTurn => "Not your turn",
            GameError::InvalidIndex => "Invalid quess",
            GameError::AlreadyRevealed => "Square already quessed",
            GameError::TimedOut => "Timed out",
            GameError::GameNotStarted => if action == Action::Timeout {
                "The game is not started yet"
            } else {
                "The game is not started yet!"
            },
            GameError::NoTimestamp => "No timestamp of last action found",
            GameError::TimeoutNotReached => "Timeout has not been reached yet",
            GameError::GameNotOver => "The game is not finished yet!",
            GameError::AlreadyPledged => "You have already requested a rematch",
            GameError::WithdrawNotAllowed => "Failed to withdraw",
        };
        String::from_str(words)
    }
}

} // verus!
