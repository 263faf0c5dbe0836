//! Notifications handed back by the state-changing operations.

use vstd::prelude::*;
use crate::account::{AccountId, Balance};
use crate::key::TradeKey;

verus! {

/// Tokens moved from one account to another.
///
/// `from` is `None` where the tokens were issued rather than taken from an account.
#[derive(Clone, Copy, Debug, PartialEq, Eq)]
pub struct Transfer {
    pub from: Option<AccountId>,
    pub to: Option<AccountId>,
    pub value: Balance,
}

/// An owner let a spender withdraw up to `value` tokens.
#[derive(Clone, Copy, Debug, PartialEq, Eq)]
pub struct Approval {
    pub owner: AccountId,
    pub spender: AccountId,
    pub value: Balance,
}

/// A trade was recorded under the key `hash`.
#[derive(Clone, Copy, Debug, PartialEq, Eq)]
pub struct Trade {
    pub hash: TradeKey,
    pub buyer: Option<AccountId>,
    pub seller: Option<AccountId>,
    pub value: Balance,
    pub rate: i8,
}

/// What an operation asks its host to announce.
#[derive(Clone, Copy, Debug, PartialEq, Eq)]
pub enum Event {
    Transfer(Transfer),
    Approval(Approval),
    Trade(Trade),
}

} // verus!
