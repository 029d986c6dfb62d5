//! The actions of the game. Each one checks the call against the current
//! record, and either rejects it, leaving record and seed as they were, or
//! commits the one next state the rules allow.

use vstd::prelude::*;
use vstd::string::StringExecFns;
use crate::draw::draw;
use crate::entropy::{gather_join_entropy, gather_rematch_entropy};
use crate::env::{check_wager, Env};
use crate::error::{GameError, WagerFault};
use crate::msg::{projection, HandleMsg, InitMsg, QueryMsg, QueryResponse};
use crate::response::{paid, text_only, Payout, PayoutView, Response};
use crate::rules::{
    after_hit, after_miss, create_rejection, created, forfeited, handle_outcome, join_outcome,
    join_rejection, pledged, quess_outcome, quess_rejection, rematch_outcome, rematch_rejection,
    seated_first, timeout_outcome, timeout_rejection, withdraw_outcome, withdraw_rejection,
    withdrawn, zero_seed, Outcome,
};
use crate::state::{
    blank_board, holds, same_name, Cell, State, BOARD_SIZE, MAX_TIMEOUT, MIN_TIMEOUT,
};

verus! {

/// How a call relates to what the rules say of it: a committed action
/// leaves exactly the outcome's record and seed and returns its response; a
/// rejected one returns the error and changes nothing.
pub open spec fn agrees(
    before: State,
    seed_before: [u8; 32],
    after: State,
    seed_after: [u8; 32],
    result: Result<Response, GameError>,
    outcome: Result<Outcome, GameError>,
) -> bool {
    match outcome {
        Ok(o) => {
            &&& result matches Ok(response)
            &&& response@ == o.response
            &&& after@ == o.state
            &&& seed_after@ == o.seed
        },
        Err(e) => {
            &&& result == Err::<Response, GameError>(e)
            &&& after == before
            &&& seed_after == seed_before
        },
    }
}

/// A response that carries only the text `text`.
fn reply(text: &str) -> (r: Response)
    ensures
        r@ == text_only(text@),
{
    Response { payout: None, data: Some(String::from_str(text)) }
}

/// The response that pays the whole pot, twice the bet, to `winner` and
/// carries the text `text`.
fn settle(winner: Option<String>, bet: u64, text: &str) -> (r: Response)
    ensures
        r@.data == Some(text@),
        r@.payout == match winner {
            Some(w) => Some(PayoutView { to: w@, amount: (2 * bet) as u128 }),
            None => None,
        },
{
    let amount: u128 = 2 * (bet as u128);
    let payout = match winner {
        Some(to) => Some(Payout { to, amount }),
        None => None,
    };
    Response { payout, data: Some(String::from_str(text)) }
}

/// Tests the terms and the funds of a new game.
pub fn check_create(env: &Env, bet: u64, timeout: u64) -> (r: Option<GameError>)
    ensures
        r == create_rejection(env@, bet, timeout),
{
    if bet == 0 {
        return Some(GameError::InvalidWager(WagerFault::Missing));
    }
    if let Some(fault) = check_wager(bet, env) {
        return Some(GameError::InvalidWager(fault));
    }
    if timeout < MIN_TIMEOUT || timeout > MAX_TIMEOUT {
        return Some(GameError::InvalidTimeout);
    }
    None
}

/// Sets the game up: the caller, who stakes the bet, takes seat A of a
/// blank board, and the seed chain starts from zero.
pub fn init(env: &Env, msg: InitMsg) -> (r: Result<(State, [u8; 32]), GameError>)
    ensures
        match msg {
            InitMsg::CreateGame { bet, timeout } => match create_rejection(env@, bet, timeout) {
                Some(e) => r == Err::<(State, [u8; 32]), GameError>(e),
                None => {
                    &&& r matches Ok(made)
                    &&& made.0@ == created(env@, bet, timeout)
                    &&& made.0.wf()
                    &&& made.1@ == zero_seed()
                },
            },
        },
{
    match msg {
        InitMsg::CreateGame { bet, timeout } => {
            if let Some(e) = check_create(env, bet, timeout) {
                return Err(e);
            }
            let state = State {
                board: [Cell::Unrevealed;25],
                mine_index: None,
                bet,
                player_a: Some(env.sender.clone()),
                player_b: None,
                player_a_wants_rematch: false,
                player_b_wants_rematch: false,
                turn: None,
                last_quess: None,
                game_over: false,
                winner: None,
                last_action_timestamp: None,
                player_a_timed_out: false,
                player_b_timed_out: false,
                timeout,
            };
            let seed = [0u8;32];
            assert(state@.board =~= blank_board());
            assert(seed@ =~= zero_seed());
            Ok((state, seed))
        },
    }
}

/// Carries out one action on the record and the seed.
pub fn handle(state: &mut State, seed: &mut [u8; 32], env: &Env, msg: HandleMsg) -> (r: Result<
    Response,
    GameError,
>)
    requires
        old(state).wf(),
    ensures
        final(state).wf(),
        agrees(
            *old(state),
            *old(seed),
            *final(state),
            *final(seed),
            r,
            handle_outcome(old(state)@, old(seed)@, env@, msg),
        ),
{
    match msg {
        HandleMsg::Quess { index } => try_quess(state, seed, env, index),
        HandleMsg::Join { secret } => try_join(state, seed, env, secret),
        HandleMsg::Rematch {  } => try_rematch(state, seed, env),
        HandleMsg::Withdraw {  } => try_withdraw(state, seed, env),
        HandleMsg::Timeout {  } => try_timeout(state, seed, env),
    }
}

/// Tests a join against the record.
pub fn check_join(state: &State, env: &Env) -> (r: Option<GameError>)
    ensures
        r == join_rejection(state@, env@),
{
    if state.player_a.is_some() && state.player_b.is_some() {
        return Some(GameError::GameFull);
    }
    if holds(&state.player_a, &env.sender) || holds(&state.player_b, &env.sender) {
        return Some(GameError::AlreadyJoined);
    }
    match check_wager(state.bet, env) {
        Some(fault) => Some(GameError::InvalidWager(fault)),
        None => None,
    }
}

/// Seats the caller, who stakes the bet. Whoever finds seat A vacant takes
/// it. The next one takes seat B: a draw over the caller's identity, the
/// chain identifier, block height, block time and `secret` places the mine,
/// and the newcomer moves first.
pub fn try_join(state: &mut State, seed: &mut [u8; 32], env: &Env, secret: u64) -> (r: Result<
    Response,
    GameError,
>)
    requires
        old(state).wf(),
    ensures
        final(state).wf(),
        agrees(
            *old(state),
            *old(seed),
            *final(state),
            *final(seed),
            r,
            join_outcome(old(state)@, old(seed)@, env@, secret),
        ),
{
    if let Some(e) = check_join(state, env) {
        return Err(e);
    }
    if state.player_a.is_none() {
        state.player_a = Some(env.sender.clone());
        assert(state@ == seated_first(old(state)@, env@.sender));
    } else {
        let entropy = gather_join_entropy(env, secret);
        let mine = draw(seed, entropy.as_slice(), BOARD_SIZE as u8);
        state.seat_second(env.sender.clone(), mine, env.time);
    }
    Ok(reply("Successfully joined the game"))
}

/// Tests a guess against the record.
pub fn check_quess(state: &State, env: &Env, index: u8) -> (r: Option<GameError>)
    ensures
        r == quess_rejection(state@, env@, index),
{
    if state.game_over {
        return Some(GameError::GameOver);
    }
    if !holds(&state.player_a, &env.sender) && !holds(&state.player_b, &env.sender) {
        return Some(GameError::NotAPlayer);
    }
    if !holds(&state.turn, &env.sender) {
        return Some(GameError::NotYourTurn);
    }
    if index as usize >= BOARD_SIZE {
        return Some(GameError::InvalidIndex);
    }
    if state.board[index as usize] != Cell::Unrevealed {
        return Some(GameError::AlreadyRevealed);
    }
    if let Some(at) = state.last_action_timestamp {
        if env.time as u128 > at as u128 + state.timeout as u128 {
            return Some(GameError::TimedOut);
        }
    }
    None
}

/// Reveals the cell at `index` for the caller. On a safe cell the turn
/// passes to the opponent and the timeout window starts anew. On the mine
/// the round ends, the opponent wins and is paid the pot.
pub fn try_quess(state: &mut State, seed: &mut [u8; 32], env: &Env, index: u8) -> (r: Result<
    Response,
    GameError,
>)
    requires
        old(state).wf(),
    ensures
        final(state).wf(),
        agrees(
            *old(state),
            *old(seed),
            *final(state),
            *final(seed),
            r,
            quess_outcome(old(state)@, old(seed)@, env@, index),
        ),
{
    if let Some(e) = check_quess(state, env, index) {
        return Err(e);
    }
    let opponent = if holds(&state.player_a, &env.sender) {
        state.player_b.clone()
    } else {
        state.player_a.clone()
    };
    let hit = match state.mine_index {
        Some(mine) => mine == index,
        None => false,
    };
    state.board[index as usize] = if hit {
        Cell::RevealedMine
    } else {
        Cell::RevealedSafe
    };
    state.last_quess = Some(index);
    if hit {
        state.game_over = true;
        state.winner = opponent.clone();
        state.last_action_timestamp = None;
        assert(state@ == after_hit(old(state)@, env@.sender, index));
        Ok(settle(opponent, state.bet, "Game over"))
    } else {
        state.turn = opponent;
        state.last_action_timestamp = Some(env.time);
        assert(state@ == after_miss(old(state)@, env@.sender, index, env.time));
        Ok(reply("Miss!"))
    }
}

/// Tests a timeout claim against the record.
pub fn check_timeout(state: &State, env: &Env) -> (r: Option<GameError>)
    ensures
        r == timeout_rejection(state@, env@),
{
    if state.player_a.is_none() || state.player_b.is_none() {
        return Some(GameError::GameNotStarted);
    }
    if state.game_over {
        return Some(GameError::GameOver);
    }
    match state.last_action_timestamp {
        None => Some(GameError::NoTimestamp),
        Some(at) => {
            if (env.time as u128) < at as u128 + state.timeout as u128 {
                Some(GameError::TimeoutNotReached)
            } else {
                None
            }
        },
    }
}

/// Ends the round against the player who let the timeout window pass:
/// whoever was to move forfeits, and the other player wins and is paid the
/// pot. Anyone may make the claim.
pub fn try_timeout(state: &mut State, seed: &mut [u8; 32], env: &Env) -> (r: Result<
    Response,
    GameError,
>)
    requires
        old(state).wf(),
    ensures
        final(state).wf(),
        agrees(
            *old(state),
            *old(seed),
            *final(state),
            *final(seed),
            r,
            timeout_outcome(old(state)@, old(seed)@, env@),
        ),
{
    if let Some(e) = check_timeout(state, env) {
        return Err(e);
    }
    let a_forfeits = same_name(&state.turn, &state.player_a);
    let winner = if a_forfeits {
        state.player_b.clone()
    } else {
        state.player_a.clone()
    };
    state.game_over = true;
    state.winner = winner.clone();
    state.player_a_timed_out = a_forfeits;
    state.player_b_timed_out = !a_forfeits;
    state.last_action_timestamp = None;
    assert(state@ == forfeited(old(state)@));
    Ok(settle(winner, state.bet, "Success"))
}

/// Tests a rematch pledge against the record.
pub fn check_rematch(state: &State, env: &Env) -> (r: Option<GameError>)
    ensures
        r == rematch_rejection(state@, env@),
{
    if !state.game_over {
        return Some(GameError::GameNotOver);
    }
    if state.player_a.is_none() || state.player_b.is_none() {
        return Some(GameError::GameNotStarted);
    }
    let is_a = holds(&state.player_a, &env.sender);
    let is_b = holds(&state.player_b, &env.sender);
    if !is_a && !is_b {
        return Some(GameError::NotAPlayer);
    }
    if (is_a && state.player_a_wants_rematch) || (is_b && state.player_b_wants_rematch) {
        return Some(GameError::AlreadyPledged);
    }
    match check_wager(state.bet, env) {
        Some(fault) => Some(GameError::InvalidWager(fault)),
        None => None,
    }
}

/// Pledges a rematch for the caller, who stakes the bet again. Once both
/// players stand pledged a new round is dealt: a draw over block height and
/// time places the mine, the board is wiped and the winner of the finished
/// round moves first.
pub fn try_rematch(state: &mut State, seed: &mut [u8; 32], env: &Env) -> (r: Result<
    Response,
    GameError,
>)
    requires
        old(state).wf(),
    ensures
        final(state).wf(),
        agrees(
            *old(state),
            *old(seed),
            *final(state),
            *final(seed),
            r,
            rematch_outcome(old(state)@, old(seed)@, env@),
        ),
{
    if let Some(e) = check_rematch(state, env) {
        return Err(e);
    }
    if holds(&state.player_a, &env.sender) {
        state.player_a_wants_rematch = true;
    }
    if holds(&state.player_b, &env.sender) {
        state.player_b_wants_rematch = true;
    }
    assert(state@ == pledged(old(state)@, env@.sender));
    if state.player_a_wants_rematch && state.player_b_wants_rematch {
        let entropy = gather_rematch_entropy(env);
        let mine = draw(seed, entropy.as_slice(), BOARD_SIZE as u8);
        state.restart(mine, env.time);
    }
    Ok(reply("Ok"))
}

/// Tests a withdrawal against the record.
pub fn check_withdraw(state: &State, env: &Env) -> (r: Option<GameError>)
    ensures
        r == withdraw_rejection(state@, env@),
{
    let is_a = holds(&state.player_a, &env.sender);
    let is_b = holds(&state.player_b, &env.sender);
    if is_a && state.player_b.is_none() {
        return None;
    }
    if is_a && state.player_a_wants_rematch && !state.player_b_wants_rematch && state.game_over {
        return None;
    }
    if is_b && state.player_b_wants_rematch && !state.player_a_wants_rematch && state.game_over {
        return None;
    }
    Some(GameError::WithdrawNotAllowed)
}

/// Gives the caller's stake back: to the creator who leaves before anyone
/// joined, which vacates seat A, or to a player who takes back a rematch
/// pledge that the opponent has not matched.
pub fn try_withdraw(state: &mut State, seed: &mut [u8; 32], env: &Env) -> (r: Result<
    Response,
    GameError,
>)
    requires
        old(state).wf(),
    ensures
        final(state).wf(),
        agrees(
            *old(state),
            *old(seed),
            *final(state),
            *final(seed),
            r,
            withdraw_outcome(old(state)@, old(seed)@, env@),
        ),
{
    if let Some(e) = check_withdraw(state, env) {
        return Err(e);
    }
    let is_a = holds(&state.player_a, &env.sender);
    if is_a && state.player_b.is_none() {
        state.player_a = None;
    } else if is_a && state.player_a_wants_rematch && !state.player_b_wants_rematch
        && state.game_over {
        state.player_a_wants_rematch = false;
    } else {
        state.player_b_wants_rematch = false;
    }
    assert(state@ == withdrawn(old(state)@, env@.sender));
    Ok(withdraw_bet(env.sender.clone(), state.bet))
}

/// The response that sends `amount` back to `receiver`.
pub fn withdraw_bet(receiver: String, amount: u64) -> (r: Response)
    ensures
        r@ == paid(receiver@, amount as u128, None),
{
    Response { payout: Some(Payout { to: receiver, amount: amount as u128 }), data: None }
}

/// Answers a read-only request. The record is not touched.
pub fn query(state: &State, msg: QueryMsg) -> (r: QueryResponse)
    ensures
        r@ == projection(state@),
{
    match msg {
        QueryMsg::GetBoard {  } => query_board(state),
    }
}

/// What any caller may see of the record.
pub fn query_board(state: &State) -> (r: QueryResponse)
    ensures
        r@ == projection(state@),
{
    QueryResponse {
        board: state.board,
        game_over: state.game_over,
        winner: state.winner.clone(),
        player_a: state.player_a.clone(),
        player_b: state.player_b.clone(),
        player_a_wants_rematch: state.player_a_wants_rematch,
        player_b_wants_rematch: state.player_b_wants_rematch,
        turn: state.turn.clone(),
        bet: state.bet,
        timeout: state.timeout,
        player_a_timed_out: state.player_a_timed_out,
        player_b_timed_out: state.player_b_timed_out,
        last_action_timestamp: state.last_action_timestamp,
    }
}

} // verus!
