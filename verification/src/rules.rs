//! The rules of the game as mathematics: for every action, when it is
//! rejected and with which error, and otherwise the one state, seed and
//! response that it commits.

use vstd::prelude::*;
use crate::draw::{drawn_index, next_seed};
use crate::entropy::{join_entropy, rematch_entropy};
use crate::env::{wager_fault, EnvView};
use crate::error::{GameError, WagerFault};
use crate::msg::HandleMsg;
use crate::response::{paid, text_only, PayoutView, ResponseView};
use crate::state::{blank_board, Cell, StateView, BOARD_SIZE, MAX_TIMEOUT, MIN_TIMEOUT};

verus! {

/// What a committed action leaves behind.
pub struct Outcome {
    pub state: StateView,
    pub seed: Seq<u8>,
    pub response: ResponseView,
}

/// The seed chain of a freshly created game: thirty-two zero bytes.
pub open spec fn zero_seed() -> Seq<u8> {
    Seq::new(32, |i: int| 0u8)
}

/// The player who faces `who`: seat B's occupant if `who` sits in seat A,
/// seat A's otherwise.
pub open spec fn opponent_of(g: StateView, who: Option<Seq<char>>) -> Option<Seq<char>> {
    if who == g.player_a {
        g.player_b
    } else {
        g.player_a
    }
}

/// The rejection that the attached funds earn, if any.
pub open spec fn wager_rejection(bet: u64, env: EnvView) -> Option<GameError> {
    match wager_fault(bet, env.sent_funds) {
        Some(fault) => Some(GameError::InvalidWager(fault)),
        None => None,
    }
}

// ---------------------------------------------------------------- create
/// Why a game cannot be created with these terms and funds.
pub open spec fn create_rejection(env: EnvView, bet: u64, timeout: u64) -> Option<GameError> {
    if bet == 0 {
        Some(GameError::InvalidWager(WagerFault::Missing))
    } else if wager_rejection(bet, env) is Some {
        wager_rejection(bet, env)
    } else if timeout < MIN_TIMEOUT || timeout > MAX_TIMEOUT {
        Some(GameError::InvalidTimeout)
    } else {
        None
    }
}

/// The record of a freshly created game: the creator sits in seat A, the
/// board is blank and no mine has been placed.
pub open spec fn created(env: EnvView, bet: u64, timeout: u64) -> StateView {
    StateView {
        board: blank_board(),
        mine_index: None,
        bet,
        player_a: Some(env.sender),
        player_b: None,
        player_a_wants_rematch: false,
        player_b_wants_rematch: false,
        turn: None,
        last_quess: None,
        game_over: false,
        winner: None,
        last_action_timestamp: None,
        player_a_timed_out: false,
        player_b_timed_out: false,
        timeout,
    }
}

// ------------------------------------------------------------------ join
/// Why the caller cannot take a seat.
pub open spec fn join_rejection(g: StateView, env: EnvView) -> Option<GameError> {
    if g.player_a is Some && g.player_b is Some {
        Some(GameError::GameFull)
    } else if g.player_a == Some(env.sender) || g.player_b == Some(env.sender) {
        Some(GameError::AlreadyJoined)
    } else {
        wager_rejection(g.bet, env)
    }
}

/// The record after `who` took the vacant seat A.
pub open spec fn seated_first(g: StateView, who: Seq<char>) -> StateView {
    StateView { player_a: Some(who), ..g }
}

/// The record after `who` took seat B at time `now` and the mine was
/// placed at `mine`: the newcomer moves first.
pub open spec fn seated_second(g: StateView, who: Seq<char>, mine: u8, now: u64) -> StateView {
    StateView {
        player_b: Some(who),
        turn: Some(who),
        mine_index: Some(mine),
        last_action_timestamp: Some(now),
        ..g
    }
}

/// The text that confirms a join.
pub open spec fn joined_text() -> Seq<char> {
    "Successfully joined the game"@
}

/// What a join does. The first to join a vacant table takes seat A and
/// nothing else happens. The second takes seat B, and a draw over the
/// caller's entropy places the mine.
pub open spec fn join_outcome(g: StateView, seed: Seq<u8>, env: EnvView, secret: u64) -> Result<
    Outcome,
    GameError,
> {
    match join_rejection(g, env) {
        Some(e) => Err(e),
        None => if g.player_a is None {
            Ok(Outcome { state: seated_first(g, env.sender), seed, response: text_only(joined_text()) })
        } else {
            let chain = next_seed(seed, join_entropy(env, secret));
            Ok(
                Outcome {
                    state: seated_second(
                        g,
                        env.sender,
                        drawn_index(chain, BOARD_SIZE as u8),
                        env.time,
                    ),
                    seed: chain,
                    response: text_only(joined_text()),
                },
            )
        },
    }
}

// ----------------------------------------------------------------- guess
/// Why the caller's guess at `index` is turned down. A guess that comes
/// after the timeout window has closed is rejected, never resolved. At the
/// very instant the window closes a guess is still taken, and so is a
/// timeout claim: whichever is applied first decides.
pub open spec fn quess_rejection(g: StateView, env: EnvView, index: u8) -> Option<GameError> {
    if g.game_over {
        Some(GameError::GameOver)
    } else if !g.is_seated(Some(env.sender)) {
        Some(GameError::NotAPlayer)
    } else if g.turn != Some(env.sender) {
        Some(GameError::NotYourTurn)
    } else if index as int >= g.board.len() {
        Some(GameError::InvalidIndex)
    } else if g.board[index as int] != Cell::Unrevealed {
        Some(GameError::AlreadyRevealed)
    } else if g.last_action_timestamp matches Some(at) && env.time > at + g.timeout {
        Some(GameError::TimedOut)
    } else {
        None
    }
}

/// The record after `who` revealed the safe cell `index` at time `now`.
pub open spec fn after_miss(g: StateView, who: Seq<char>, index: u8, now: u64) -> StateView {
    StateView {
        board: g.board.update(index as int, Cell::RevealedSafe),
        last_quess: Some(index),
        turn: opponent_of(g, Some(who)),
        last_action_timestamp: Some(now),
        ..g
    }
}

/// The record after `who` revealed the mine at `index`: the round is over
/// and the opponent has won.
pub open spec fn after_hit(g: StateView, who: Seq<char>, index: u8) -> StateView {
    StateView {
        board: g.board.update(index as int, Cell::RevealedMine),
        game_over: true,
        winner: opponent_of(g, Some(who)),
        last_quess: Some(index),
        last_action_timestamp: None,
        ..g
    }
}

/// The text that answers a guess on a safe cell.
pub open spec fn miss_text() -> Seq<char> {
    "Miss!"@
}

/// The text that answers a guess on the mine.
pub open spec fn game_over_text() -> Seq<char> {
    "Game over"@
}

/// The whole pot: both players' stakes.
pub open spec fn pot(g: StateView) -> u128 {
    (2 * g.bet) as u128
}

/// The order to pay the pot to `winner`.
pub open spec fn pot_to(g: StateView, winner: Option<Seq<char>>) -> Option<PayoutView> {
    match winner {
        Some(to) => Some(PayoutView { to, amount: pot(g) }),
        None => None,
    }
}

/// What a guess does.
pub open spec fn quess_outcome(g: StateView, seed: Seq<u8>, env: EnvView, index: u8) -> Result<
    Outcome,
    GameError,
> {
    match quess_rejection(g, env, index) {
        Some(e) => Err(e),
        None => if g.mine_index == Some(index) {
            Ok(
                Outcome {
                    state: after_hit(g, env.sender, index),
                    seed,
                    response: ResponseView {
                        payout: pot_to(g, opponent_of(g, Some(env.sender))),
                        data: Some(game_over_text()),
                    },
                },
            )
        } else {
            Ok(
                Outcome {
                    state: after_miss(g, env.sender, index, env.time),
                    seed,
                    response: text_only(miss_text()),
                },
            )
        },
    }
}

// --------------------------------------------------------------- timeout
/// Why a timeout cannot be claimed.
pub open spec fn timeout_rejection(g: StateView, env: EnvView) -> Option<GameError> {
    if g.player_a is None || g.player_b is None {
        Some(GameError::GameNotStarted)
    } else if g.game_over {
        Some(GameError::GameOver)
    } else if g.last_action_timestamp is None {
        Some(GameError::NoTimestamp)
    } else if env.time < g.last_action_timestamp->0 + g.timeout {
        Some(GameError::TimeoutNotReached)
    } else {
        None
    }
}

/// The record after the player to move has forfeited by timeout.
pub open spec fn forfeited(g: StateView) -> StateView {
    let winner = opponent_of(g, g.turn);
    StateView {
        game_over: true,
        winner,
        player_a_timed_out: winner != g.player_a,
        player_b_timed_out: winner == g.player_a,
        last_action_timestamp: None,
        ..g
    }
}

/// The text that answers a claimed timeout.
pub open spec fn success_text() -> Seq<char> {
    "Success"@
}

/// What a timeout claim does.
pub open spec fn timeout_outcome(g: StateView, seed: Seq<u8>, env: EnvView) -> Result<
    Outcome,
    GameError,
> {
    match timeout_rejection(g, env) {
        Some(e) => Err(e),
        None => Ok(
            Outcome {
                state: forfeited(g),
                seed,
                response: ResponseView {
                    payout: pot_to(g, opponent_of(g, g.turn)),
                    data: Some(success_text()),
                },
            },
        ),
    }
}

// --------------------------------------------------------------- rematch
/// Why the caller cannot pledge a rematch.
pub open spec fn rematch_rejection(g: StateView, env: EnvView) -> Option<GameError> {
    if !g.game_over {
        Some(GameError::GameNotOver)
    } else if g.player_a is None || g.player_b is None {
        Some(GameError::GameNotStarted)
    } else if !g.is_seated(Some(env.sender)) {
        Some(GameError::NotAPlayer)
    } else if (g.player_a == Some(env.sender) && g.player_a_wants_rematch) || (g.player_b == Some(
        env.sender,
    ) && g.player_b_wants_rematch) {
        Some(GameError::AlreadyPledged)
    } else {
        wager_rejection(g.bet, env)
    }
}

/// The record after `who` pledged a rematch.
pub open spec fn pledged(g: StateView, who: Seq<char>) -> StateView {
    StateView {
        player_a_wants_rematch: g.player_a_wants_rematch || g.player_a == Some(who),
        player_b_wants_rematch: g.player_b_wants_rematch || g.player_b == Some(who),
        ..g
    }
}

/// The record of a new round, dealt at time `now` with the mine at `mine`:
/// same players, same bet, blank board, and the winner of the round before
/// moves first.
pub open spec fn restarted(g: StateView, mine: u8, now: u64) -> StateView {
    StateView {
        board: blank_board(),
        mine_index: Some(mine),
        player_a_wants_rematch: false,
        player_b_wants_rematch: false,
        turn: g.winner,
        last_quess: None,
        game_over: false,
        winner: None,
        player_a_timed_out: false,
        player_b_timed_out: false,
        last_action_timestamp: Some(now),
        ..g
    }
}

/// Both players stand pledged.
pub open spec fn both_pledged(g: StateView) -> bool {
    g.player_a_wants_rematch && g.player_b_wants_rematch
}

/// The text that answers a pledge.
pub open spec fn ok_text() -> Seq<char> {
    "Ok"@
}

/// What a rematch pledge does. Alone it only records the pledge. Once both
/// players stand pledged, a draw over block height and time places a new
/// mine and a new round starts.
pub open spec fn rematch_outcome(g: StateView, seed: Seq<u8>, env: EnvView) -> Result<
    Outcome,
    GameError,
> {
    match rematch_rejection(g, env) {
        Some(e) => Err(e),
        None => {
            let p = pledged(g, env.sender);
            if both_pledged(p) {
                let chain = next_seed(seed, rematch_entropy(env));
                Ok(
                    Outcome {
                        state: restarted(p, drawn_index(chain, BOARD_SIZE as u8), env.time),
                        seed: chain,
                        response: text_only(ok_text()),
                    },
                )
            } else {
                Ok(Outcome { state: p, seed, response: text_only(ok_text()) })
            }
        },
    }
}

// -------------------------------------------------------------- withdraw
/// The creator backs out before anyone joined.
pub open spec fn can_cancel(g: StateView, who: Seq<char>) -> bool {
    g.player_a == Some(who) && g.player_b is None
}

/// Seat A's occupant takes back a pledge that seat B has not matched.
pub open spec fn can_retract_a(g: StateView, who: Seq<char>) -> bool {
    g.player_a == Some(who) && g.player_a_wants_rematch && !g.player_b_wants_rematch
        && g.game_over
}

/// Seat B's occupant takes back a pledge that seat A has not matched.
pub open spec fn can_retract_b(g: StateView, who: Seq<char>) -> bool {
    g.player_b == Some(who) && g.player_b_wants_rematch && !g.player_a_wants_rematch
        && g.game_over
}

/// Why the caller cannot withdraw a stake.
pub open spec fn withdraw_rejection(g: StateView, env: EnvView) -> Option<GameError> {
    if can_cancel(g, env.sender) || can_retract_a(g, env.sender) || can_retract_b(g, env.sender) {
        None
    } else {
        Some(GameError::WithdrawNotAllowed)
    }
}

/// The record after `who` withdrew a stake.
pub open spec fn withdrawn(g: StateView, who: Seq<char>) -> StateView {
    if can_cancel(g, who) {
        StateView { player_a: None, ..g }
    } else if can_retract_a(g, who) {
        StateView { player_a_wants_rematch: false, ..g }
    } else {
        StateView { player_b_wants_rematch: false, ..g }
    }
}

/// What a withdrawal does: the stake goes back to the caller.
pub open spec fn withdraw_outcome(g: StateView, seed: Seq<u8>, env: EnvView) -> Result<
    Outcome,
    GameError,
> {
    match withdraw_rejection(g, env) {
        Some(e) => Err(e),
        None => Ok(
            Outcome {
                state: withdrawn(g, env.sender),
                seed,
                response: paid(env.sender, g.bet as u128, None),
            },
        ),
    }
}

// -------------------------------------------------------------- dispatch
/// What an action does, whichever it is.
pub open spec fn handle_outcome(g: StateView, seed: Seq<u8>, env: EnvView, msg: HandleMsg) -> Result<
    Outcome,
    GameError,
> {
    match msg {
        HandleMsg::Quess { index } => quess_outcome(g, seed, env, index),
        HandleMsg::Join { secret } => join_outcome(g, seed, env, secret),
        HandleMsg::Rematch {  } => rematch_outcome(g, seed, env),
        HandleMsg::Withdraw {  } => withdraw_outcome(g, seed, env),
        HandleMsg::Timeout {  } => timeout_outcome(g, seed, env),
    }
}

} // verus!
