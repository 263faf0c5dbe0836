//! The sum of the balances that a map holds, and how the sum follows a change of
//! one balance.

use vstd::prelude::*;
use crate::account::{AccountId, Balance};

verus! {

/// What `balances` holds for `account`: nothing recorded counts as zero.
pub open spec fn held(balances: Map<AccountId, Balance>, account: AccountId) -> Balance {
    if balances.dom().contains(account) {
        balances[account]
    } else {
        0
    }
}

/// The sum of what `balances` holds for the accounts in `accounts`.
pub open spec fn sum_over(balances: Map<AccountId, Balance>, accounts: Set<AccountId>) -> int
    decreases accounts.len(),
    when accounts.finite()
{
    if accounts.len() == 0 {
        0
    } else {
        let account = accounts.choose();
        balances[account] + sum_over(balances, accounts.remove(account))
    }
}

/// The sum of all balances that `balances` holds.
pub open spec fn total_balance(balances: Map<AccountId, Balance>) -> int {
    sum_over(balances, balances.dom())
}

/// A sum of balances is never negative.
pub proof fn lemma_sum_over_nonnegative(balances: Map<AccountId, Balance>, accounts: Set<AccountId>)
    requires
        accounts.finite(),
    ensures
        sum_over(balances, accounts) >= 0,
    decreases accounts.len(),
{
    if accounts.len() != 0 {
        lemma_sum_over_nonnegative(balances, accounts.remove(accounts.choose()));
    }
}

/// Any one account of the set can be taken out of the sum first.
pub proof fn lemma_sum_over_remove(
    balances: Map<AccountId, Balance>,
    accounts: Set<AccountId>,
    account: AccountId,
)
    requires
        accounts.finite(),
        accounts.contains(account),
    ensures
        sum_over(balances, accounts) == balances[account] + sum_over(
            balances,
            accounts.remove(account),
        ),
    decreases accounts.len(),
{
    let first = accounts.choose();
    if first != account {
        lemma_sum_over_remove(balances, accounts.remove(first), account);
        lemma_sum_over_remove(balances, accounts.remove(account), first);
        assert(accounts.remove(first).remove(account) =~= accounts.remove(account).remove(first));
    }
}

/// Two maps that agree on every account of the set have the same sum over it.
pub proof fn lemma_sum_over_agree(
    left: Map<AccountId, Balance>,
    right: Map<AccountId, Balance>,
    accounts: Set<AccountId>,
)
    requires
        accounts.finite(),
        forall|account: AccountId| accounts.contains(account) ==> left[account] == right[account],
    ensures
        sum_over(left, accounts) == sum_over(right, accounts),
    decreases accounts.len(),
{
    if accounts.len() != 0 {
        lemma_sum_over_agree(left, right, accounts.remove(accounts.choose()));
    }
}

/// The map that holds nothing has the total zero.
pub proof fn lemma_total_empty()
    ensures
        total_balance(Map::<AccountId, Balance>::empty()) == 0,
{
}

/// Setting one balance changes the total by the difference between the new balance
/// and what was held before.
pub proof fn lemma_total_insert(
    balances: Map<AccountId, Balance>,
    account: AccountId,
    value: Balance,
)
    requires
        balances.dom().finite(),
    ensures
        total_balance(balances.insert(account, value)) == total_balance(balances) - held(
            balances,
            account,
        ) + value,
{
    let after = balances.insert(account, value);
    let others = balances.dom().remove(account);
    assert(after.dom().remove(account) =~= others);
    lemma_sum_over_remove(after, after.dom(), account);
    lemma_sum_over_agree(after, balances, others);
    if balances.dom().contains(account) {
        lemma_sum_over_remove(balances, balances.dom(), account);
    } else {
        assert(others =~= balances.dom());
    }
}

/// No account holds more than the total.
pub proof fn lemma_held_at_most_total(balances: Map<AccountId, Balance>, account: AccountId)
    requires
        balances.dom().finite(),
    ensures
        held(balances, account) <= total_balance(balances),
{
    if balances.dom().contains(account) {
        lemma_sum_over_remove(balances, balances.dom(), account);
        lemma_sum_over_nonnegative(balances, balances.dom().remove(account));
    } else {
        lemma_sum_over_nonnegative(balances, balances.dom());
    }
}

} // verus!
