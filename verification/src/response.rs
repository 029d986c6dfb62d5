//! What a committed action hands back: an optional payout to perform and an
//! optional text for the caller.

use vstd::prelude::*;

verus! {

/// An order to pay `amount` of the settlement denomination to `to`.
#[derive(Clone, Debug, PartialEq, Eq)]
pub struct Payout {
    pub to: String,
    pub amount: u128,
}

/// A payout as a mathematical value.
pub struct PayoutView {
    pub to: Seq<char>,
    pub amount: u128,
}

impl View for Payout {
    type V = PayoutView;

    open spec fn view(&self) -> PayoutView {
        PayoutView { to: self.to@, amount: self.amount }
    }
}

/// The result of a committed action.
#[derive(Clone, Debug, PartialEq, Eq)]
pub struct Response {
    pub payout: Option<Payout>,
    pub data: Option<String>,
}

/// A response as a mathematical value.
pub struct ResponseView {
    pub payout: Option<PayoutView>,
    pub data: Option<Seq<char>>,
}

impl View for Response {
    type V = ResponseView;

    open spec fn view(&self) -> ResponseView {
        ResponseView {
            payout: match self.payout {
                Some(p) => Some(p@),
                None => None,
            },
            data: match self.data {
                Some(s) => Some(s@),
                None => None,
            },
        }
    }
}

/// A response that carries only a text.
pub open spec fn text_only(text: Seq<char>) -> ResponseView {
    ResponseView { payout: None, data: Some(text) }
}

/// A response that carries a payout and a text.
pub open spec fn paid(to: Seq<char>, amount: u128, data: Option<Seq<char>>) -> ResponseView {
    ResponseView { payout: Some(PayoutView { to, amount }), data }
}

} // verus!
