//! What holds of the game whatever the players do, proved from the rules.

use vstd::prelude::*;
use crate::draw::{drawn_index, next_seed};
use crate::entropy::{join_entropy, rematch_entropy};
use crate::env::EnvView;
use crate::error::GameError;
use crate::msg::{projection, HandleMsg};
use crate::response::PayoutView;
use crate::rules::{
    both_pledged, handle_outcome, join_outcome, opponent_of, pledged, pot, quess_outcome,
    quess_rejection, rematch_outcome, rematch_rejection, restarted, timeout_outcome, timeout_rejection,
    withdraw_outcome,
};
use crate::state::{Cell, StateView, BOARD_SIZE};

verus! {

/// Every committed action leaves a record that meets the invariant.
pub proof fn lemma_actions_keep_invariant(g: StateView, seed: Seq<u8>, env: EnvView, msg: HandleMsg)
    requires
        g.wf(),
        handle_outcome(g, seed, env, msg) is Ok,
    ensures
        handle_outcome(g, seed, env, msg)->Ok_0.state.wf(),
{
}

/// No action changes the bet or the timeout window.
pub proof fn lemma_terms_are_fixed(g: StateView, seed: Seq<u8>, env: EnvView, msg: HandleMsg)
    requires
        handle_outcome(g, seed, env, msg) is Ok,
    ensures
        handle_outcome(g, seed, env, msg)->Ok_0.state.bet == g.bet,
        handle_outcome(g, seed, env, msg)->Ok_0.state.timeout == g.timeout,
{
}

/// A board shows at most one mine, shows it only where the mine lies, and
/// only once the round is over.
pub proof fn lemma_at_most_one_mine(g: StateView, i: int, j: int)
    requires
        g.wf(),
        0 <= i < BOARD_SIZE,
        0 <= j < BOARD_SIZE,
        g.board[i] == Cell::RevealedMine,
        g.board[j] == Cell::RevealedMine,
    ensures
        i == j,
        g.game_over,
        g.mine_index == Some(i as u8),
{
}

/// A cell turns into a revealed mine only through a guess at the cell where
/// the mine lies, and that very action ends the round.
pub proof fn lemma_mine_shows_only_as_round_ends(
    g: StateView,
    seed: Seq<u8>,
    env: EnvView,
    msg: HandleMsg,
    i: int,
)
    requires
        g.wf(),
        handle_outcome(g, seed, env, msg) is Ok,
        0 <= i < BOARD_SIZE,
        g.board[i] != Cell::RevealedMine,
        handle_outcome(g, seed, env, msg)->Ok_0.state.board[i] == Cell::RevealedMine,
    ensures
        msg == (HandleMsg::Quess { index: i as u8 }),
        g.mine_index == Some(i as u8),
        !g.game_over,
        handle_outcome(g, seed, env, msg)->Ok_0.state.game_over,
{
}

/// While a round runs the mine stays where the draw put it.
pub proof fn lemma_mine_stays_put(g: StateView, seed: Seq<u8>, env: EnvView, msg: HandleMsg)
    requires
        g.wf(),
        g.started(),
        !g.game_over,
        handle_outcome(g, seed, env, msg) is Ok,
    ensures
        handle_outcome(g, seed, env, msg)->Ok_0.state.mine_index == g.mine_index,
{
}

/// The seed chain moves only with a draw: when the second player joins and
/// when a rematch is agreed. Every other action hands it on untouched.
pub proof fn lemma_seed_moves_only_with_a_draw(
    g: StateView,
    seed: Seq<u8>,
    env: EnvView,
    msg: HandleMsg,
)
    requires
        g.wf(),
        handle_outcome(g, seed, env, msg) is Ok,
    ensures
        ({
            let after = handle_outcome(g, seed, env, msg)->Ok_0;
            let dealt = !g.started() && after.state.started();
            let redealt = g.game_over && !after.state.game_over;
            &&& dealt ==> msg is Join && after.seed == next_seed(
                seed,
                join_entropy(env, msg->secret),
            )
            &&& redealt ==> msg is Rematch && after.seed == next_seed(seed, rematch_entropy(env))
            &&& !dealt && !redealt ==> after.seed == seed
            &&& dealt || redealt ==> after.state.mine_index == Some(
                drawn_index(after.seed, BOARD_SIZE as u8),
            )
        }),
{
}

/// A guess on the mine ends the round in favour of the guesser's opponent,
/// who is paid the whole pot.
pub proof fn lemma_hit_pays_the_opponent(g: StateView, seed: Seq<u8>, env: EnvView, index: u8)
    requires
        g.wf(),
        quess_outcome(g, seed, env, index) is Ok,
        g.mine_index == Some(index),
    ensures
        ({
            let after = quess_outcome(g, seed, env, index)->Ok_0;
            &&& after.state.game_over
            &&& after.state.board[index as int] == Cell::RevealedMine
            &&& after.state.is_seated(after.state.winner)
            &&& after.state.winner != Some(env.sender)
            &&& after.response.payout == Some(
                PayoutView { to: after.state.winner->0, amount: pot(g) },
            )
            &&& pot(g) == 2 * g.bet
        }),
{
}

/// After a guess that does not end the round, the turn belongs to the
/// seated player who did not have it before.
pub proof fn lemma_turn_alternates(g: StateView, seed: Seq<u8>, env: EnvView, index: u8)
    requires
        g.wf(),
        quess_outcome(g, seed, env, index) is Ok,
        !quess_outcome(g, seed, env, index)->Ok_0.state.game_over,
    ensures
        ({
            let after = quess_outcome(g, seed, env, index)->Ok_0.state;
            &&& g.turn == Some(env.sender)
            &&& after.is_seated(after.turn)
            &&& after.turn != g.turn
            &&& after.turn == opponent_of(g, g.turn)
        }),
{
}

/// The public projection of a record does not depend on where the mine
/// lies: two records that differ in the mine index alone answer every
/// query alike.
pub proof fn lemma_query_hides_mine(g: StateView, mine: Option<u8>)
    ensures
        projection(StateView { mine_index: mine, ..g }) == projection(g),
{
}

/// A pledge that the opponent has not matched changes nothing but the
/// caller's own pledge flag: board, mine, turn and seed stay as they are.
pub proof fn lemma_lone_pledge_only_sets_flag(g: StateView, seed: Seq<u8>, env: EnvView)
    requires
        g.wf(),
        rematch_outcome(g, seed, env) is Ok,
        !g.player_a_wants_rematch,
        !g.player_b_wants_rematch,
    ensures
        ({
            let after = rematch_outcome(g, seed, env)->Ok_0;
            &&& after.seed == seed
            &&& after.state.game_over
            &&& if g.player_a == Some(env.sender) {
                after.state == (StateView { player_a_wants_rematch: true, ..g })
            } else {
                after.state == (StateView { player_b_wants_rematch: true, ..g })
            }
        }),
{
}

/// A pledge that meets the opponent's standing pledge starts the new round:
/// the seed chain advances, a blank board is dealt with a fresh mine, both
/// pledges are cleared, and the winner of the finished round moves first.
pub proof fn lemma_matched_pledge_restarts(g: StateView, seed: Seq<u8>, env: EnvView)
    requires
        g.wf(),
        rematch_outcome(g, seed, env) is Ok,
        g.player_a_wants_rematch || g.player_b_wants_rematch,
    ensures
        ({
            let after = rematch_outcome(g, seed, env)->Ok_0;
            let chain = next_seed(seed, rematch_entropy(env));
            &&& after.seed == chain
            &&& after.state == restarted(
                pledged(g, env.sender),
                drawn_index(chain, BOARD_SIZE as u8),
                env.time,
            )
            &&& !after.state.game_over
            &&& !after.state.player_a_wants_rematch
            &&& !after.state.player_b_wants_rematch
            &&& after.state.turn == g.winner
            &&& after.state.player_a == g.player_a
            &&& after.state.player_b == g.player_b
        }),
{
}

/// A rematch resets the round exactly when both pledges stand together.
pub proof fn lemma_rematch_needs_both_pledges(g: StateView, seed: Seq<u8>, env: EnvView)
    requires
        g.wf(),
        rematch_outcome(g, seed, env) is Ok,
    ensures
        ({
            let after = rematch_outcome(g, seed, env)->Ok_0;
            &&& both_pledged(pledged(g, env.sender)) <==> !after.state.game_over
            &&& both_pledged(pledged(g, env.sender)) <==> (g.player_a_wants_rematch
                || g.player_b_wants_rematch)
            &&& !both_pledged(pledged(g, env.sender)) ==> after.seed == seed && after.state
                == pledged(g, env.sender)
        }),
{
}

/// The winner of a timeout is the seated player who was not to move when
/// the claim was made, and the whole pot goes to that player.
pub proof fn lemma_timeout_pays_the_waiting_player(g: StateView, seed: Seq<u8>, env: EnvView)
    requires
        g.wf(),
        timeout_outcome(g, seed, env) is Ok,
    ensures
        ({
            let after = timeout_outcome(g, seed, env)->Ok_0;
            &&& after.state.game_over
            &&& after.state.is_seated(after.state.winner)
            &&& after.state.winner != g.turn
            &&& after.response.payout == Some(
                PayoutView { to: after.state.winner->0, amount: pot(g) },
            )
            &&& pot(g) == 2 * g.bet
        }),
{
}

/// Before the timeout window closes only the guess is open, after it only
/// the timeout claim, and at the instant it closes both are.
pub proof fn lemma_window_splits_guess_and_claim(g: StateView, env: EnvView, index: u8)
    requires
        g.wf(),
        g.last_action_timestamp is Some,
    ensures
        ({
            let closes = g.last_action_timestamp->0 + g.timeout;
            &&& env.time < closes ==> timeout_rejection(g, env) == Some(
                GameError::TimeoutNotReached,
            ) && quess_rejection(g, env, index) != Some(GameError::TimedOut)
            &&& env.time > closes ==> timeout_rejection(g, env) is None && quess_rejection(
                g,
                env,
                index,
            ) is Some
            &&& env.time == closes ==> timeout_rejection(g, env) is None && quess_rejection(
                g,
                env,
                index,
            ) != Some(GameError::TimedOut)
        }),
{
}

/// On a record that meets the invariant a timeout claim never fails for
/// want of a timestamp, since a running round always carries one, and a
/// rematch pledge never fails for want of a player, since a finished round
/// has both.
pub proof fn lemma_rejections_ruled_out_by_invariant(g: StateView, env: EnvView)
    requires
        g.wf(),
    ensures
        timeout_rejection(g, env) != Some(GameError::NoTimestamp),
        rematch_rejection(g, env) != Some(GameError::GameNotStarted),
{
}

/// Two joins at a vacant table followed by a guess of the player to move on
/// a cell without the mine: the cell shows safe, the turn has passed from
/// the second joiner to the first, and the round goes on.
pub proof fn lemma_join_join_guess(
    g: StateView,
    seed: Seq<u8>,
    first: EnvView,
    first_secret: u64,
    second: EnvView,
    second_secret: u64,
    guess: EnvView,
    index: u8,
)
    requires
        g.wf(),
        g.player_a is None,
        join_outcome(g, seed, first, first_secret) is Ok,
        ({
            let one = join_outcome(g, seed, first, first_secret)->Ok_0;
            &&& join_outcome(one.state, one.seed, second, second_secret) is Ok
            &&& ({
                let two = join_outcome(one.state, one.seed, second, second_secret)->Ok_0;
                &&& quess_outcome(two.state, two.seed, guess, index) is Ok
                &&& two.state.mine_index != Some(index)
            })
        }),
    ensures
        ({
            let one = join_outcome(g, seed, first, first_secret)->Ok_0;
            let two = join_outcome(one.state, one.seed, second, second_secret)->Ok_0;
            let three = quess_outcome(two.state, two.seed, guess, index)->Ok_0;
            &&& two.state.turn == Some(second.sender)
            &&& guess.sender == second.sender
            &&& three.state.board[index as int] == Cell::RevealedSafe
            &&& three.state.turn == Some(first.sender)
            &&& !three.state.game_over
            &&& three.state.wf()
        }),
{
}

/// A withdrawal pays the caller's own stake back to the caller, no more.
pub proof fn lemma_withdraw_refunds_the_bet(g: StateView, seed: Seq<u8>, env: EnvView)
    requires
        g.wf(),
        withdraw_outcome(g, seed, env) is Ok,
    ensures
        ({
            let after = withdraw_outcome(g, seed, env)->Ok_0;
            &&& after.response.payout == Some(PayoutView { to: env.sender, amount: g.bet as u128 })
            &&& after.seed == seed
            &&& after.state.board == g.board
            &&& after.state.game_over == g.game_over
        }),
{
}

} // verus!
