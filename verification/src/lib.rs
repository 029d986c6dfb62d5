//! A two-player wagering minigame on a hidden-mine board, written as pure
//! state transitions: every action takes the current game record, the rolling
//! seed and the facts of the call, and either rejects the call leaving both
//! untouched or commits the one legal next state together with its payout.

pub mod contract;
pub mod draw;
pub mod entropy;
pub mod env;
pub mod error;
pub mod laws;
pub mod msg;
pub mod response;
pub mod rules;
pub mod state;

pub use contract::{
    handle, init, query, query_board, try_join, try_quess, try_rematch, try_timeout, try_withdraw,
    withdraw_bet,
};
pub use env::{Coin, CoinView, Env, EnvView};
pub use error::{Action, GameError, WagerFault};
pub use msg::{HandleMsg, InitMsg, QueryMsg, QueryResponse, QueryResponseView};
pub use response::{Payout, PayoutView, Response, ResponseView};
pub use state::{Cell, State, StateView, BOARD_SIZE, MAX_TIMEOUT, MIN_TIMEOUT};
