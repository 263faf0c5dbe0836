//! The ledger as a mathematical state, and each operation as a function from the
//! state before to the state after.

use vstd::prelude::*;
use crate::account::{AccountId, Balance};
use crate::balances::{
    held, lemma_held_at_most_total, lemma_total_empty, lemma_total_insert, total_balance,
};
use crate::event::{Approval, Event, Transfer};
use crate::key::TradeKey;
use crate::recorder::{lemma_recorded_wf, spec_record_of, spec_recorded, trades_wf};
use crate::store::TradeRecord;

verus! {

/// What a ledger holds.
#[verifier::ext_equal]
pub struct LedgerState {
    /// The number of tokens issued when the ledger was created.
    pub total_supply: Balance,
    /// The balance of each account that was ever written.
    pub balances: Map<AccountId, Balance>,
    /// The allowance of each pair of owner and spender that was ever written.
    pub allowances: Map<(AccountId, AccountId), Balance>,
    /// The recorded trades, by key.
    pub trades: Map<TradeKey, TradeRecord>,
}

/// The notification of `value` tokens issued to `to`.
pub open spec fn spec_issue_event(to: AccountId, value: Balance) -> Event {
    Event::Transfer(Transfer { from: None, to: Some(to), value })
}

/// The notification of `value` tokens moved from `from` to `to`.
pub open spec fn spec_transfer_event(from: AccountId, to: AccountId, value: Balance) -> Event {
    Event::Transfer(Transfer { from: Some(from), to: Some(to), value })
}

/// The notification of `owner` letting `spender` withdraw up to `value` tokens.
pub open spec fn spec_approval_event(
    owner: AccountId,
    spender: AccountId,
    value: Balance,
) -> Event {
    Event::Approval(Approval { owner, spender, value })
}

impl LedgerState {
    /// The invariant of the ledger: the balances add up to the total supply, trades
    /// are held under trade keys only, and each store holds finitely many entries.
    pub open spec fn wf(self) -> bool {
        &&& self.balances.dom().finite()
        &&& self.allowances.dom().finite()
        &&& trades_wf(self.trades)
        &&& total_balance(self.balances) == self.total_supply
    }

    /// Whether the balances can take the two accounts that a move of tokens may add.
    /// The store counts its entries in a `u32`.
    pub open spec fn has_room_for_accounts(self) -> bool {
        self.balances.dom().len() + 2 <= u32::MAX
    }

    /// Whether the allowances can take the pair of owner and spender that an approval
    /// may add. The store counts its entries in a `u32`.
    pub open spec fn has_room_for_allowance(self) -> bool {
        self.allowances.dom().len() + 1 <= u32::MAX
    }

    /// Whether the stores can take the entries that any one operation may add.
    pub open spec fn has_room(self) -> bool {
        &&& self.has_room_for_accounts()
        &&& self.has_room_for_allowance()
    }

    /// The ledger as created by `owner` with `supply` tokens: all of them are the
    /// owner's.
    pub open spec fn initial(owner: AccountId, supply: Balance) -> LedgerState {
        LedgerState {
            total_supply: supply,
            balances: Map::empty().insert(owner, supply),
            allowances: Map::empty(),
            trades: Map::empty(),
        }
    }

    /// The balance of `account`: zero where none was ever written.
    pub open spec fn balance_of(self, account: AccountId) -> Balance {
        held(self.balances, account)
    }

    /// What `spender` may still withdraw from `owner`: zero where nothing was ever
    /// approved.
    pub open spec fn allowance(self, owner: AccountId, spender: AccountId) -> Balance {
        if self.allowances.dom().contains((owner, spender)) {
            self.allowances[(owner, spender)]
        } else {
            0
        }
    }

    /// The trade held for the identifier `id`, or the empty record.
    pub open spec fn get_trades(self, id: u8) -> TradeRecord {
        spec_record_of(self.trades, id)
    }

    /// The state after `value` tokens were taken from `from` and then given to `to`.
    ///
    /// Meant for `value` up to the balance of `from`.
    pub open spec fn moved(self, from: AccountId, to: AccountId, value: Balance) -> LedgerState {
        let debited = self.balances.insert(from, (self.balance_of(from) - value) as Balance);
        let credited = debited.insert(to, (held(debited, to) + value) as Balance);
        LedgerState { balances: credited, ..self }
    }

    /// The state after `owner` set the allowance of `spender` to `value`.
    pub open spec fn approve(
        self,
        owner: AccountId,
        spender: AccountId,
        value: Balance,
    ) -> LedgerState {
        LedgerState { allowances: self.allowances.insert((owner, spender), value), ..self }
    }

    /// Whether `caller` can transfer `value` tokens of its own.
    pub open spec fn can_transfer(self, caller: AccountId, value: Balance) -> bool {
        self.balance_of(caller) >= value
    }

    /// The state after `caller` asked to transfer `value` tokens to `to`: moved where
    /// the caller has them, unchanged where not.
    pub open spec fn transfer(
        self,
        caller: AccountId,
        to: AccountId,
        value: Balance,
    ) -> LedgerState {
        if self.can_transfer(caller, value) {
            self.moved(caller, to, value)
        } else {
            self
        }
    }

    /// Whether `caller` can transfer `value` tokens of `from`: it needs that much
    /// allowance from `from`, and `from` needs that many tokens.
    pub open spec fn can_transfer_from(
        self,
        caller: AccountId,
        from: AccountId,
        value: Balance,
    ) -> bool {
        &&& self.allowance(from, caller) >= value
        &&& self.balance_of(from) >= value
    }

    /// The state after `caller` asked to transfer `value` tokens from `from` to `to`:
    /// where it can, the allowance is spent and the tokens are moved; where not,
    /// nothing changes.
    pub open spec fn transfer_from(
        self,
        caller: AccountId,
        from: AccountId,
        to: AccountId,
        value: Balance,
    ) -> LedgerState {
        if self.can_transfer_from(caller, from, value) {
            self.approve(from, caller, (self.allowance(from, caller) - value) as Balance).moved(
                from,
                to,
                value,
            )
        } else {
            self
        }
    }

    /// Whether a trade of `value` tokens sold by `seller` is accepted.
    pub open spec fn can_trade(self, seller: AccountId, value: Balance) -> bool {
        self.balance_of(seller) >= value
    }

    /// The state after a trade was submitted for the identifier `id`: where the
    /// seller has the tokens, they are moved to the buyer and the trade is recorded;
    /// where not, nothing changes.
    pub open spec fn trade(
        self,
        id: u8,
        buyer: AccountId,
        seller: AccountId,
        value: Balance,
        rate: i8,
    ) -> LedgerState {
        if self.can_trade(seller, value) {
            LedgerState {
                trades: spec_recorded(self.trades, id, buyer, seller, value, rate),
                ..self.moved(seller, buyer, value)
            }
        } else {
            self
        }
    }
}

/// A newly created ledger is well formed and has room.
pub proof fn lemma_initial_wf(owner: AccountId, supply: Balance)
    ensures
        LedgerState::initial(owner, supply).wf(),
        LedgerState::initial(owner, supply).has_room(),
{
    lemma_total_empty();
    lemma_total_insert(Map::empty(), owner, supply);
    assert(Map::<AccountId, Balance>::empty().insert(owner, supply).dom() =~= set![owner]);
}

/// Moving tokens that the source holds keeps the total, and no balance leaves the
/// range of `Balance` on the way.
pub proof fn lemma_moved_wf(state: LedgerState, from: AccountId, to: AccountId, value: Balance)
    requires
        state.wf(),
        state.balance_of(from) >= value,
    ensures
        state.moved(from, to, value).wf(),
        held(
            state.balances.insert(from, (state.balance_of(from) - value) as Balance),
            to,
        ) + value <= state.total_supply,
{
    let debited = state.balances.insert(from, (state.balance_of(from) - value) as Balance);
    lemma_total_insert(state.balances, from, (state.balance_of(from) - value) as Balance);
    lemma_held_at_most_total(debited, to);
    lemma_total_insert(debited, to, (held(debited, to) + value) as Balance);
}

/// Every operation keeps the ledger well formed.
pub proof fn lemma_operations_wf(
    state: LedgerState,
    caller: AccountId,
    from: AccountId,
    to: AccountId,
    value: Balance,
    id: u8,
    rate: i8,
)
    requires
        state.wf(),
    ensures
        state.approve(caller, to, value).wf(),
        state.transfer(caller, to, value).wf(),
        state.transfer_from(caller, from, to, value).wf(),
        state.trade(id, to, from, value, rate).wf(),
{
    if state.can_transfer(caller, value) {
        lemma_moved_wf(state, caller, to, value);
    }
    if state.can_transfer_from(caller, from, value) {
        let spent = state.approve(from, caller, (state.allowance(from, caller) - value) as Balance);
        lemma_moved_wf(spent, from, to, value);
    }
    if state.can_trade(from, value) {
        lemma_moved_wf(state, from, to, value);
        lemma_recorded_wf(state.trades, id, to, from, value, rate);
    }
}

} // verus!
