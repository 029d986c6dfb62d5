//! The facts of one call that the execution environment supplies: who
//! calls, with which funds, on which chain, at which height and time.

use vstd::prelude::*;
use vstd::string::StringExecFns;
use crate::error::WagerFault;

verus! {

/// An amount of one denomination.
#[derive(Clone, Debug, PartialEq, Eq)]
pub struct Coin {
    pub denom: String,
    pub amount: u128,
}

/// A coin as a mathematical value.
pub struct CoinView {
    pub denom: Seq<char>,
    pub amount: u128,
}

impl View for Coin {
    type V = CoinView;

    open spec fn view(&self) -> CoinView {
        CoinView { denom: self.denom@, amount: self.amount }
    }
}

/// The environment of one call.
#[derive(Clone, Debug, PartialEq, Eq)]
pub struct Env {
    pub sender: String,
    pub sent_funds: Vec<Coin>,
    pub chain_id: String,
    pub height: u64,
    pub time: u64,
}

/// The environment of one call as a mathematical value.
pub struct EnvView {
    pub sender: Seq<char>,
    pub sent_funds: Seq<CoinView>,
    pub chain_id: Seq<char>,
    pub height: u64,
    pub time: u64,
}

impl View for Env {
    type V = EnvView;

    open spec fn view(&self) -> EnvView {
        EnvView {
            sender: self.sender@,
            sent_funds: Seq::new(self.sent_funds@.len(), |i: int| self.sent_funds@[i]@),
            chain_id: self.chain_id@,
            height: self.height,
            time: self.time,
        }
    }
}

/// The one denomination in which bets are placed and paid out.
pub open spec fn settlement_denom() -> Seq<char> {
    "uscrt"@
}

/// The settlement denomination as a string.
pub fn denomination() -> (d: String)
    ensures
        d@ == settlement_denom(),
{
    String::from_str("uscrt")
}

/// What is wrong with `funds` as a stake of `bet`: only the first coin
/// counts, it must be in the settlement denomination and at least `bet`.
pub open spec fn wager_fault(bet: u64, funds: Seq<CoinView>) -> Option<WagerFault> {
    if funds.len() == 0 {
        Some(WagerFault::Missing)
    } else if funds[0].denom != settlement_denom() {
        Some(WagerFault::WrongDenomination)
    } else if funds[0].amount < bet {
        Some(WagerFault::Insufficient)
    } else {
        None
    }
}

/// Tests the attached funds against the bet.
pub fn check_wager(bet: u64, env: &Env) -> (r: Option<WagerFault>)
    ensures
        r == wager_fault(bet, env@.sent_funds),
{
    if env.sent_funds.len() == 0 {
        return Some(WagerFault::Missing);
    }
    let first = &env.sent_funds[0];
    let denom = denomination();
    if first.denom != denom {
        return Some(WagerFault::WrongDenomination);
    }
    if first.amount < bet as u128 {
        return Some(WagerFault::Insufficient);
    }
    None
}

} // verus!
