//! What holds of the ledger and of the record-only store whatever the accounts, the
//! amounts and the order of the operations.

use vstd::prelude::*;
use crate::account::{AccountId, Balance};
use crate::balances::total_balance;
use crate::key::{lemma_trade_key_injective, spec_trade_key, TradeKey};
use crate::model::{lemma_moved_wf, lemma_operations_wf, LedgerState};
use crate::recorder::spec_empty_record;
use crate::storage::TradeStorageState;

verus! {

/// One state-changing operation of the ledger, with its caller and its arguments.
pub enum Operation {
    Approve { caller: AccountId, spender: AccountId, value: Balance },
    Transfer { caller: AccountId, to: AccountId, value: Balance },
    TransferFrom { caller: AccountId, from: AccountId, to: AccountId, value: Balance },
    Trade { id: u8, buyer: AccountId, seller: AccountId, value: Balance, rate: i8 },
}

impl LedgerState {
    /// The state after `operation`.
    pub open spec fn apply(self, operation: Operation) -> LedgerState {
        match operation {
            Operation::Approve { caller, spender, value } => self.approve(caller, spender, value),
            Operation::Transfer { caller, to, value } => self.transfer(caller, to, value),
            Operation::TransferFrom { caller, from, to, value } => self.transfer_from(
                caller,
                from,
                to,
                value,
            ),
            Operation::Trade { id, buyer, seller, value, rate } => self.trade(
                id,
                buyer,
                seller,
                value,
                rate,
            ),
        }
    }

    /// The state after each of `operations` in turn.
    pub open spec fn apply_all(self, operations: Seq<Operation>) -> LedgerState
        decreases operations.len(),
    {
        if operations.len() == 0 {
            self
        } else {
            self.apply_all(operations.drop_last()).apply(operations.last())
        }
    }
}

/// Two accounts are the same account exactly when they agree byte for byte, and so
/// are two trade keys.
pub proof fn lemma_identity_is_bytes(a: AccountId, b: AccountId, j: TradeKey, k: TradeKey)
    ensures
        a == b <==> (forall|i: int| 0 <= i < 32 ==> a.0[i] == b.0[i]),
        j == k <==> (forall|i: int| 0 <= i < 32 ==> j.0[i] == k.0[i]),
{
    assert(a.0 =~= b.0 <==> (forall|i: int| 0 <= i < 32 ==> a.0[i] == b.0[i]));
    assert(j.0 =~= k.0 <==> (forall|i: int| 0 <= i < 32 ==> j.0[i] == k.0[i]));
}

/// A new ledger has the supply it was created with, all of it is the
/// creator's, and every other account has nothing.
pub proof fn lemma_construction(owner: AccountId, supply: Balance, other: AccountId)
    requires
        other != owner,
    ensures
        LedgerState::initial(owner, supply).total_supply == supply,
        LedgerState::initial(owner, supply).balance_of(owner) == supply,
        LedgerState::initial(owner, supply).balance_of(other) == 0,
{
}

/// No operation changes the total supply, and after it the
/// balances still add up to the total supply.
pub proof fn lemma_operation_conserves(state: LedgerState, operation: Operation)
    requires
        state.wf(),
    ensures
        state.apply(operation).wf(),
        state.apply(operation).total_supply == state.total_supply,
        total_balance(state.apply(operation).balances) == total_balance(state.balances),
{
    match operation {
        Operation::Approve { caller, spender, value } => {
            lemma_operations_wf(state, caller, caller, spender, value, 0, 0);
        },
        Operation::Transfer { caller, to, value } => {
            lemma_operations_wf(state, caller, caller, to, value, 0, 0);
        },
        Operation::TransferFrom { caller, from, to, value } => {
            lemma_operations_wf(state, caller, from, to, value, 0, 0);
        },
        Operation::Trade { id, buyer, seller, value, rate } => {
            lemma_operations_wf(state, seller, seller, buyer, value, id, rate);
        },
    }
}

/// After any sequence of operations, successful or refused, the total
/// supply is what it was and the balances add up to it.
pub proof fn lemma_conservation(state: LedgerState, operations: Seq<Operation>)
    requires
        state.wf(),
    ensures
        state.apply_all(operations).wf(),
        state.apply_all(operations).total_supply == state.total_supply,
        total_balance(state.apply_all(operations).balances) == state.total_supply,
    decreases operations.len(),
{
    if operations.len() > 0 {
        lemma_conservation(state, operations.drop_last());
        lemma_operation_conserves(state.apply_all(operations.drop_last()), operations.last());
    }
}

/// What moving tokens does to each balance: the source loses `value` and the
/// destination gains it, a move from an account to itself changes no balance, and no
/// third account is touched.
pub proof fn lemma_moved_balances(
    state: LedgerState,
    from: AccountId,
    to: AccountId,
    value: Balance,
    other: AccountId,
)
    requires
        state.wf(),
        state.balance_of(from) >= value,
    ensures
        from != to ==> state.moved(from, to, value).balance_of(from) == state.balance_of(from)
            - value,
        from != to ==> state.moved(from, to, value).balance_of(to) == state.balance_of(to) + value,
        from == to ==> state.moved(from, to, value).balance_of(from) == state.balance_of(from),
        other != from && other != to ==> state.moved(from, to, value).balance_of(other)
            == state.balance_of(other),
        state.moved(from, to, value).allowances == state.allowances,
        state.moved(from, to, value).trades == state.trades,
        state.moved(from, to, value).total_supply == state.total_supply,
{
    lemma_moved_wf(state, from, to, value);
}

/// A transfer of more than the caller has changes nothing.
pub proof fn lemma_transfer_refused(
    state: LedgerState,
    caller: AccountId,
    to: AccountId,
    value: Balance,
)
    requires
        value > state.balance_of(caller),
    ensures
        !state.can_transfer(caller, value),
        state.transfer(caller, to, value) == state,
{
}

/// A transfer of what the caller has moves the tokens and touches nothing else.
pub proof fn lemma_transfer_accepted(
    state: LedgerState,
    caller: AccountId,
    to: AccountId,
    value: Balance,
)
    requires
        state.wf(),
        value <= state.balance_of(caller),
    ensures
        state.can_transfer(caller, value),
        state.transfer(caller, to, value) == state.moved(caller, to, value),
        caller != to ==> state.transfer(caller, to, value).balance_of(caller) == state.balance_of(
            caller,
        ) - value,
        caller != to ==> state.transfer(caller, to, value).balance_of(to) == state.balance_of(to)
            + value,
        caller == to ==> state.transfer(caller, to, value).balance_of(caller) == state.balance_of(
            caller,
        ),
{
    lemma_moved_balances(state, caller, to, value, caller);
}

/// A transfer on an allowance takes the amount off that
/// allowance, leaves every other allowance as it was, and moves the tokens.
pub proof fn lemma_transfer_from_accepted(
    state: LedgerState,
    caller: AccountId,
    from: AccountId,
    to: AccountId,
    value: Balance,
    owner: AccountId,
    spender: AccountId,
)
    requires
        state.wf(),
        state.allowance(from, caller) >= value,
        state.balance_of(from) >= value,
    ensures
        state.can_transfer_from(caller, from, value),
        state.transfer_from(caller, from, to, value).allowance(from, caller) == state.allowance(
            from,
            caller,
        ) - value,
        (owner, spender) != (from, caller) ==> state.transfer_from(
            caller,
            from,
            to,
            value,
        ).allowance(owner, spender) == state.allowance(owner, spender),
        state.transfer_from(caller, from, to, value).balances == state.moved(
            from,
            to,
            value,
        ).balances,
{
}

/// A transfer on an allowance that is below the amount, or of more than the source
/// has, changes nothing: the allowance stays what it was.
pub proof fn lemma_transfer_from_refused(
    state: LedgerState,
    caller: AccountId,
    from: AccountId,
    to: AccountId,
    value: Balance,
)
    requires
        state.allowance(from, caller) < value || state.balance_of(from) < value,
    ensures
        !state.can_transfer_from(caller, from, value),
        state.transfer_from(caller, from, to, value) == state,
{
}

/// An approval replaces the allowance. After two approvals of the same
/// spender the allowance is the second amount, and the state is as if the first
/// approval had never been made.
pub proof fn lemma_approve_overwrites(
    state: LedgerState,
    owner: AccountId,
    spender: AccountId,
    first: Balance,
    second: Balance,
)
    ensures
        state.approve(owner, spender, first).allowance(owner, spender) == first,
        state.approve(owner, spender, first).approve(owner, spender, second).allowance(
            owner,
            spender,
        ) == second,
        state.approve(owner, spender, first).approve(owner, spender, second) == state.approve(
            owner,
            spender,
            second,
        ),
{
    assert(state.allowances.insert((owner, spender), first).insert((owner, spender), second)
        =~= state.allowances.insert((owner, spender), second));
}

/// An approval changes no balance, no trade and no allowance of another pair.
pub proof fn lemma_approve_keeps_others(
    state: LedgerState,
    owner: AccountId,
    spender: AccountId,
    value: Balance,
    other_owner: AccountId,
    other_spender: AccountId,
)
    requires
        (other_owner, other_spender) != (owner, spender),
    ensures
        state.approve(owner, spender, value).allowance(other_owner, other_spender)
            == state.allowance(other_owner, other_spender),
        state.approve(owner, spender, value).balances == state.balances,
        state.approve(owner, spender, value).trades == state.trades,
        state.approve(owner, spender, value).total_supply == state.total_supply,
{
}

/// An account that was never written has the balance zero, a pair
/// that was never written has the allowance zero, and an identifier under whose key
/// nothing was recorded gives the empty record, which is all zeros.
pub proof fn lemma_default_lookups(
    state: LedgerState,
    account: AccountId,
    owner: AccountId,
    spender: AccountId,
    id: u8,
)
    ensures
        !state.balances.dom().contains(account) ==> state.balance_of(account) == 0,
        !state.allowances.dom().contains((owner, spender)) ==> state.allowance(owner, spender)
            == 0,
        !state.trades.dom().contains(spec_trade_key(id)) ==> state.get_trades(id)
            == spec_empty_record(),
        spec_empty_record().2 == 0 && spec_empty_record().3 == 0,
        forall|i: int|
            0 <= i < 32 ==> spec_empty_record().0.0[i] == 0 && spec_empty_record().1.0[i] == 0,
{
}

impl Operation {
    /// Whether the operation gives tokens to `account` where it succeeds.
    pub open spec fn credits(self, account: AccountId) -> bool {
        match self {
            Operation::Approve { .. } => false,
            Operation::Transfer { to, .. } => to == account,
            Operation::TransferFrom { to, .. } => to == account,
            Operation::Trade { buyer, .. } => buyer == account,
        }
    }

    /// Whether the operation is an approval of `spender` by `owner`.
    pub open spec fn approves(self, owner: AccountId, spender: AccountId) -> bool {
        match self {
            Operation::Approve { caller, spender: approved, .. } => caller == owner && approved
                == spender,
            _ => false,
        }
    }

    /// Whether the operation is a trade for the identifier `id`.
    pub open spec fn trades(self, id: u8) -> bool {
        match self {
            Operation::Trade { id: traded, .. } => traded == id,
            _ => false,
        }
    }
}

/// An account other than the creator that no operation ever gave tokens to has the
/// balance zero, whatever else was done.
pub proof fn lemma_never_credited(
    creator: AccountId,
    supply: Balance,
    operations: Seq<Operation>,
    account: AccountId,
)
    requires
        account != creator,
        forall|i: int| 0 <= i < operations.len() ==> !operations[i].credits(account),
    ensures
        LedgerState::initial(creator, supply).apply_all(operations).balance_of(account) == 0,
    decreases operations.len(),
{
    if operations.len() > 0 {
        lemma_never_credited(creator, supply, operations.drop_last(), account);
        assert(!operations[operations.len() - 1].credits(account));
    }
}

/// A pair of owner and spender for which no approval was ever made has the
/// allowance zero, whatever else was done.
pub proof fn lemma_never_approved(
    creator: AccountId,
    supply: Balance,
    operations: Seq<Operation>,
    owner: AccountId,
    spender: AccountId,
)
    requires
        forall|i: int| 0 <= i < operations.len() ==> !operations[i].approves(owner, spender),
    ensures
        LedgerState::initial(creator, supply).apply_all(operations).allowance(owner, spender) == 0,
    decreases operations.len(),
{
    if operations.len() > 0 {
        lemma_never_approved(creator, supply, operations.drop_last(), owner, spender);
        assert(!operations[operations.len() - 1].approves(owner, spender));
    }
}

/// An identifier for which no trade was ever submitted gives the empty record,
/// whatever else was done.
pub proof fn lemma_never_traded(
    creator: AccountId,
    supply: Balance,
    operations: Seq<Operation>,
    id: u8,
)
    requires
        forall|i: int| 0 <= i < operations.len() ==> !operations[i].trades(id),
    ensures
        LedgerState::initial(creator, supply).apply_all(operations).get_trades(id)
            == spec_empty_record(),
    decreases operations.len(),
{
    if operations.len() > 0 {
        lemma_never_traded(creator, supply, operations.drop_last(), id);
        let before = LedgerState::initial(creator, supply).apply_all(operations.drop_last());
        match operations.last() {
            Operation::Trade { id: traded, buyer, seller, value, rate } => {
                lemma_trade_keeps_others(before, traded, buyer, seller, value, rate, id);
            },
            _ => {},
        }
    }
}

/// On a new ledger no allowance and no trade is there yet.
pub proof fn lemma_initial_lookups(
    creator: AccountId,
    supply: Balance,
    owner: AccountId,
    spender: AccountId,
    id: u8,
)
    ensures
        LedgerState::initial(creator, supply).allowance(owner, spender) == 0,
        LedgerState::initial(creator, supply).get_trades(id) == spec_empty_record(),
{
}

/// A trade of more than the seller has changes no balance and no
/// trade record.
pub proof fn lemma_trade_refused(
    state: LedgerState,
    id: u8,
    buyer: AccountId,
    seller: AccountId,
    value: Balance,
    rate: i8,
)
    requires
        value > state.balance_of(seller),
    ensures
        !state.can_trade(seller, value),
        state.trade(id, buyer, seller, value, rate) == state,
{
}

/// A trade of what the seller has moves the amount from the seller
/// to the buyer, and a lookup of its identifier then gives exactly what was
/// submitted. Allowances play no part.
pub proof fn lemma_trade_accepted(
    state: LedgerState,
    id: u8,
    buyer: AccountId,
    seller: AccountId,
    value: Balance,
    rate: i8,
)
    requires
        state.wf(),
        value <= state.balance_of(seller),
    ensures
        state.can_trade(seller, value),
        state.trade(id, buyer, seller, value, rate).get_trades(id) == (buyer, seller, value, rate),
        state.trade(id, buyer, seller, value, rate).balances == state.moved(
            seller,
            buyer,
            value,
        ).balances,
        buyer != seller ==> state.trade(id, buyer, seller, value, rate).balance_of(buyer)
            == state.balance_of(buyer) + value,
        buyer != seller ==> state.trade(id, buyer, seller, value, rate).balance_of(seller)
            == state.balance_of(seller) - value,
        buyer == seller ==> state.trade(id, buyer, seller, value, rate).balance_of(seller)
            == state.balance_of(seller),
        state.trade(id, buyer, seller, value, rate).allowances == state.allowances,
{
    lemma_moved_balances(state, seller, buyer, value, seller);
}

/// Of two accepted trades with the same identifier, a lookup
/// gives the second alone.
pub proof fn lemma_trade_overwrites(
    state: LedgerState,
    id: u8,
    first_buyer: AccountId,
    first_seller: AccountId,
    first_value: Balance,
    first_rate: i8,
    second_buyer: AccountId,
    second_seller: AccountId,
    second_value: Balance,
    second_rate: i8,
)
    requires
        state.can_trade(first_seller, first_value),
        state.trade(id, first_buyer, first_seller, first_value, first_rate).can_trade(
            second_seller,
            second_value,
        ),
    ensures
        state.trade(id, first_buyer, first_seller, first_value, first_rate).trade(
            id,
            second_buyer,
            second_seller,
            second_value,
            second_rate,
        ).get_trades(id) == (second_buyer, second_seller, second_value, second_rate),
{
}

/// A trade leaves what is recorded for every other identifier as it was.
pub proof fn lemma_trade_keeps_others(
    state: LedgerState,
    id: u8,
    buyer: AccountId,
    seller: AccountId,
    value: Balance,
    rate: i8,
    other: u8,
)
    requires
        other != id,
    ensures
        state.trade(id, buyer, seller, value, rate).get_trades(other) == state.get_trades(other),
{
    lemma_trade_key_injective(id, other);
}

/// In the record-only store every trade is recorded: a lookup of its identifier
/// gives exactly what was submitted last, and what is recorded for every other
/// identifier and the registrations stay as they were.
pub proof fn lemma_storage_trade(
    state: TradeStorageState,
    id: u8,
    buyer: AccountId,
    seller: AccountId,
    value: Balance,
    rate: i8,
    other: u8,
)
    ensures
        state.trade(id, buyer, seller, value, rate).get_trades(id) == (buyer, seller, value, rate),
        other != id ==> state.trade(id, buyer, seller, value, rate).get_trades(other)
            == state.get_trades(other),
        state.trade(id, buyer, seller, value, rate).identities == state.identities,
{
    lemma_trade_key_injective(id, other);
}

/// A new record-only store holds no trade and registers the one simulation it was
/// created for.
pub proof fn lemma_storage_initial(
    simulation_id: u128,
    area_id: u128,
    timestamp: u32,
    id: u8,
    other: u128,
)
    ensures
        TradeStorageState::initial(simulation_id, area_id, timestamp).get_trades(id)
            == spec_empty_record(),
        TradeStorageState::initial(simulation_id, area_id, timestamp).is_registered(simulation_id),
        TradeStorageState::initial(simulation_id, area_id, timestamp).identities[simulation_id] == (
            area_id,
            timestamp,
        ),
        other != simulation_id ==> !TradeStorageState::initial(
            simulation_id,
            area_id,
            timestamp,
        ).is_registered(other),
{
}

} // verus!
