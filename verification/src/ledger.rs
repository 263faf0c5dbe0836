//! The ledger of balances, allowances and trades.
//!
//! Each operation takes the caller as an argument and hands back, beside its result,
//! the notifications that its host has to announce.

use vstd::prelude::*;
use crate::account::{AccountId, Balance};
use crate::event::{Approval, Event, Transfer};
use crate::model::{
    lemma_initial_wf, lemma_moved_wf, spec_approval_event, spec_issue_event, spec_transfer_event,
    LedgerState,
};
use crate::recorder::{spec_trade_event, TradeRecorder};
use crate::store::{
    allowance_entries, allowance_map_get, allowance_map_insert, allowance_map_len,
    allowance_map_new, balance_entries, balance_map_get, balance_map_insert, balance_map_len,
    balance_map_new, AllowanceMap, BalanceMap, TradeRecord,
};

verus! {

/// A ledger of one kind of token.
pub struct Ledger {
    /// Total token supply.
    total_supply: Balance,
    /// Mapping from owner to number of owned tokens.
    balances: BalanceMap,
    /// Mapping of the token amount which an account is allowed to withdraw from
    /// another account.
    allowances: AllowanceMap,
    /// The trades recorded.
    trades: TradeRecorder,
}

impl View for Ledger {
    type V = LedgerState;

    closed spec fn view(&self) -> LedgerState {
        LedgerState {
            total_supply: self.total_supply,
            balances: balance_entries(self.balances),
            allowances: allowance_entries(self.allowances),
            trades: self.trades@,
        }
    }
}

impl Ledger {
    /// The ledger's invariant: see [`LedgerState::wf`].
    pub open spec fn wf(&self) -> bool {
        self@.wf()
    }

    /// Whether the ledger can take one more operation: see [`LedgerState::has_room`].
    pub open spec fn spec_has_room(&self) -> bool {
        self@.has_room()
    }

    /// Creates a ledger of `initial_supply` tokens, all of them owned by `caller`, and
    /// announces their issue.
    pub fn new(caller: AccountId, initial_supply: Balance) -> (created: (Ledger, Vec<Event>))
        ensures
            created.0.wf(),
            created.0.spec_has_room(),
            created.0@ == LedgerState::initial(caller, initial_supply),
            created.0@.total_supply == initial_supply,
            created.0@.balance_of(caller) == initial_supply,
            forall|other: AccountId| other != caller ==> created.0@.balance_of(other) == 0,
            created.1@ == seq![spec_issue_event(caller, initial_supply)],
    {
        let mut balances = balance_map_new();
        balance_map_insert(&mut balances, caller, initial_supply);
        let ledger = Ledger {
            total_supply: initial_supply,
            balances,
            allowances: allowance_map_new(),
            trades: TradeRecorder::new(),
        };
        proof {
            lemma_initial_wf(caller, initial_supply);
        }
        let mut events: Vec<Event> = Vec::new();
        events.push(
            Event::Transfer(Transfer { from: None, to: Some(caller), value: initial_supply }),
        );
        (ledger, events)
    }

    /// Tells whether the ledger can take one more operation.
    #[verifier::when_used_as_spec(spec_has_room)]
    pub fn has_room(&self) -> (room: bool)
        requires
            self.wf(),
        ensures
            room == self.spec_has_room(),
    {
        let accounts = balance_map_len(&self.balances);
        let pairs = allowance_map_len(&self.allowances);
        accounts <= u32::MAX - 2 && pairs <= u32::MAX - 1
    }

    /// Returns the total token supply.
    pub fn total_supply(&self) -> (supply: Balance)
        ensures
            supply == self@.total_supply,
    {
        self.total_supply
    }

    /// Returns the balance of `owner`: zero where it was never credited.
    pub fn balance_of(&self, owner: AccountId) -> (balance: Balance)
        ensures
            balance == self@.balance_of(owner),
    {
        match balance_map_get(&self.balances, owner) {
            Some(balance) => balance,
            None => 0,
        }
    }

    /// Returns the amount which `spender` is still allowed to withdraw from `owner`:
    /// zero where none was ever approved.
    pub fn allowance(&self, owner: AccountId, spender: AccountId) -> (allowance: Balance)
        ensures
            allowance == self@.allowance(owner, spender),
    {
        match allowance_map_get(&self.allowances, owner, spender) {
            Some(allowance) => allowance,
            None => 0,
        }
    }

    /// Returns the trade recorded for `id`, or the empty record where there is none.
    pub fn get_trades(&self, id: u8) -> (record: TradeRecord)
        ensures
            record == self@.get_trades(id),
    {
        self.trades.lookup(id)
    }

    /// Sets the amount which `spender` may withdraw from `caller` to `value`, in place
    /// of what it was. Always succeeds.
    pub fn approve(
        &mut self,
        caller: AccountId,
        spender: AccountId,
        value: Balance,
    ) -> (outcome: (bool, Vec<Event>))
        requires
            old(self).wf(),
            old(self)@.has_room_for_allowance(),
        ensures
            final(self).wf(),
            outcome.0,
            final(self)@ == old(self)@.approve(caller, spender, value),
            final(self)@.allowance(caller, spender) == value,
            outcome.1@ == seq![spec_approval_event(caller, spender, value)],
    {
        allowance_map_insert(&mut self.allowances, caller, spender, value);
        let mut events: Vec<Event> = Vec::new();
        events.push(Event::Approval(Approval { owner: caller, spender, value }));
        (true, events)
    }

    /// Transfers `value` tokens from `caller` to `to`.
    ///
    /// Fails, with nothing changed and nothing announced, where `caller` has fewer
    /// than `value` tokens.
    pub fn transfer(
        &mut self,
        caller: AccountId,
        to: AccountId,
        value: Balance,
    ) -> (outcome: (bool, Vec<Event>))
        requires
            old(self).wf(),
            old(self)@.has_room_for_accounts(),
        ensures
            final(self).wf(),
            outcome.0 == old(self)@.can_transfer(caller, value),
            final(self)@ == old(self)@.transfer(caller, to, value),
            !outcome.0 ==> final(self)@ == old(self)@,
            outcome.1@ == (if outcome.0 {
                seq![spec_transfer_event(caller, to, value)]
            } else {
                Seq::empty()
            }),
    {
        if self.balance_of(caller) < value {
            return (false, Vec::new());
        }
        let event = self.transfer_from_to(caller, to, value);
        let mut events: Vec<Event> = Vec::new();
        events.push(event);
        (true, events)
    }

    /// Transfers `value` tokens from `from` to `to` on the allowance that `from` gave
    /// to `caller`, and takes `value` off that allowance.
    ///
    /// Fails, with nothing changed and nothing announced, where the allowance is
    /// below `value` or `from` has fewer than `value` tokens.
    pub fn transfer_from(
        &mut self,
        caller: AccountId,
        from: AccountId,
        to: AccountId,
        value: Balance,
    ) -> (outcome: (bool, Vec<Event>))
        requires
            old(self).wf(),
            old(self).spec_has_room(),
        ensures
            final(self).wf(),
            outcome.0 == old(self)@.can_transfer_from(caller, from, value),
            final(self)@ == old(self)@.transfer_from(caller, from, to, value),
            !outcome.0 ==> final(self)@ == old(self)@,
            outcome.1@ == (if outcome.0 {
                seq![spec_transfer_event(from, to, value)]
            } else {
                Seq::empty()
            }),
    {
        let allowance = self.allowance(from, caller);
        if allowance < value || self.balance_of(from) < value {
            return (false, Vec::new());
        }
        allowance_map_insert(&mut self.allowances, from, caller, allowance - value);
        let event = self.transfer_from_to(from, to, value);
        let mut events: Vec<Event> = Vec::new();
        events.push(event);
        (true, events)
    }

    /// Moves `value` tokens from `seller` to `buyer` and records the trade under the
    /// key of `id`, in place of what was recorded there.
    ///
    /// Fails, with nothing changed and nothing announced, where `seller` has fewer
    /// than `value` tokens. No allowance is asked for.
    pub fn trade(
        &mut self,
        id: u8,
        buyer: AccountId,
        seller: AccountId,
        value: Balance,
        rate: i8,
    ) -> (outcome: (bool, Vec<Event>))
        requires
            old(self).wf(),
            old(self)@.has_room_for_accounts(),
        ensures
            final(self).wf(),
            outcome.0 == old(self)@.can_trade(seller, value),
            final(self)@ == old(self)@.trade(id, buyer, seller, value, rate),
            !outcome.0 ==> final(self)@ == old(self)@,
            outcome.0 ==> final(self)@.get_trades(id) == (buyer, seller, value, rate),
            outcome.1@ == (if outcome.0 {
                seq![Event::Trade(spec_trade_event(id, buyer, seller, value, rate))]
            } else {
                Seq::empty()
            }),
    {
        if self.balance_of(seller) < value {
            return (false, Vec::new());
        }
        self.move_balance(seller, buyer, value);
        let event = self.trades.record(id, buyer, seller, value, rate);
        let mut events: Vec<Event> = Vec::new();
        events.push(Event::Trade(event));
        (true, events)
    }

    /// Moves `value` tokens from `from` to `to` and returns the notification of the
    /// transfer.
    fn transfer_from_to(&mut self, from: AccountId, to: AccountId, value: Balance) -> (event: Event)
        requires
            old(self).wf(),
            old(self)@.has_room_for_accounts(),
            old(self)@.balance_of(from) >= value,
        ensures
            final(self).wf(),
            final(self)@ == old(self)@.moved(from, to, value),
            event == spec_transfer_event(from, to, value),
    {
        self.move_balance(from, to, value);
        Event::Transfer(Transfer { from: Some(from), to: Some(to), value })
    }

    /// Takes `value` tokens from `from`, then gives them to `to`.
    fn move_balance(&mut self, from: AccountId, to: AccountId, value: Balance)
        requires
            old(self).wf(),
            old(self)@.has_room_for_accounts(),
            old(self)@.balance_of(from) >= value,
        ensures
            final(self).wf(),
            final(self)@ == old(self)@.moved(from, to, value),
    {
        proof {
            lemma_moved_wf(self@, from, to, value);
        }
        let from_balance = self.balance_of(from);
        balance_map_insert(&mut self.balances, from, from_balance - value);
        let to_balance = self.balance_of(to);
        balance_map_insert(&mut self.balances, to, to_balance + value);
    }
}

} // verus!
