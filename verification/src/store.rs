//! The storage maps that hold the ledger's state.
//!
//! Each map is an `ink_storage::collections::HashMap`, made empty and in memory by
//! `HashMap::new` and only ever added to. Nothing in this file is proved: the
//! verifier does not look inside a map. What a map holds has a name, and the
//! function around each call of the map states what that call does to what the map
//! holds, as the source of `ink_storage` shows it. The rest of the library is proved
//! from these statements.
//!
//! The map finds a key by the order of the keys, which for arrays of bytes is equal
//! exactly where the bytes are equal: two accounts, or two trade keys, are one key of
//! a map exactly when they are equal.

use vstd::prelude::*;
use ink_storage::collections::HashMap as StorageHashMap;
use crate::account::{AccountId, Balance};
use crate::key::TradeKey;

verus! {

/// What is recorded of a trade: buyer, seller, amount and rate.
pub type TradeRecord = (AccountId, AccountId, Balance, i8);

/// The area and the time of creation that a simulation is registered with.
pub type Identity = (u128, u32);

/// The balance of each account that has one: an `ink_storage::collections::HashMap`
/// from the account's bytes to the balance.
///
/// The verifier is told nothing of the map itself, whose declaration it does not
/// take; it knows the map by [`balance_entries`] alone.
#[verifier::external_body]
pub struct BalanceMap {
    inner: StorageHashMap<[u8; 32], u128>,
}

/// The allowance of each pair of owner and spender that has one: an
/// `ink_storage::collections::HashMap` from the bytes of both accounts to the
/// allowance.
///
/// The verifier knows the map by [`allowance_entries`] alone.
#[verifier::external_body]
pub struct AllowanceMap {
    inner: StorageHashMap<([u8; 32], [u8; 32]), u128>,
}

/// The recorded trades: an `ink_storage::collections::HashMap` from the bytes of the
/// trade key to the buyer's bytes, the seller's bytes, the amount and the rate.
///
/// The verifier knows the map by [`trade_entries`] alone.
#[verifier::external_body]
pub struct TradeMap {
    inner: StorageHashMap<[u8; 32], ([u8; 32], [u8; 32], u128, i8)>,
}

/// The registered simulations: an `ink_storage::collections::HashMap` from the
/// simulation's identifier to its area and time of creation.
///
/// The verifier knows the map by [`identity_entries`] alone.
#[verifier::external_body]
pub struct IdentityMap {
    inner: StorageHashMap<u128, (u128, u32)>,
}

/// The balances that `m` holds, by account.
pub uninterp spec fn balance_entries(m: BalanceMap) -> Map<AccountId, Balance>;

/// The allowances that `m` holds, by owner and spender.
pub uninterp spec fn allowance_entries(m: AllowanceMap) -> Map<(AccountId, AccountId), Balance>;

/// The trades that `m` holds, by key.
pub uninterp spec fn trade_entries(m: TradeMap) -> Map<TradeKey, TradeRecord>;

/// The registrations that `m` holds, by simulation identifier.
pub uninterp spec fn identity_entries(m: IdentityMap) -> Map<u128, Identity>;

/// Calls `ink_storage::collections::HashMap::new`.
///
/// Claims that the map it makes holds no balance.
#[verifier::external_body]
pub(crate) fn balance_map_new() -> (m: BalanceMap)
    ensures
        balance_entries(m) =~= Map::empty(),
{
    BalanceMap { inner: StorageHashMap::new() }
}

/// Calls `ink_storage::collections::HashMap::insert`.
///
/// Claims that afterwards the map holds `value` for `account` and, for every other
/// account, what it held before. The map counts its keys in a `u32` and adds one for
/// a new key: a key that the map does not hold yet is only admitted while the count
/// is below `u32::MAX`.
#[verifier::external_body]
pub(crate) fn balance_map_insert(m: &mut BalanceMap, account: AccountId, value: Balance)
    requires
        balance_entries(*old(m)).dom().finite(),
        balance_entries(*old(m)).dom().contains(account)
            || balance_entries(*old(m)).dom().len() < u32::MAX,
    ensures
        balance_entries(*final(m)) == balance_entries(*old(m)).insert(account, value),
{
    m.inner.insert(account.0, value);
}

/// Calls `ink_storage::collections::HashMap::get`.
///
/// Claims that it gives the balance that the map holds for `account`, and `None`
/// where the map holds none.
#[verifier::external_body]
pub(crate) fn balance_map_get(m: &BalanceMap, account: AccountId) -> (value: Option<Balance>)
    ensures
        value == (if balance_entries(*m).dom().contains(account) {
            Some(balance_entries(*m)[account])
        } else {
            None
        }),
{
    m.inner.get(&account.0).copied()
}

/// Calls `ink_storage::collections::HashMap::len`.
///
/// Claims that it gives the number of accounts that the map holds a balance for.
#[verifier::external_body]
pub(crate) fn balance_map_len(m: &BalanceMap) -> (n: u32)
    requires
        balance_entries(*m).dom().finite(),
    ensures
        n == balance_entries(*m).dom().len(),
{
    m.inner.len()
}

/// Calls `ink_storage::collections::HashMap::new`.
///
/// Claims that the map it makes holds no allowance.
#[verifier::external_body]
pub(crate) fn allowance_map_new() -> (m: AllowanceMap)
    ensures
        allowance_entries(m) =~= Map::empty(),
{
    AllowanceMap { inner: StorageHashMap::new() }
}

/// Calls `ink_storage::collections::HashMap::insert`.
///
/// Claims that afterwards the map holds `value` for the pair of `owner` and
/// `spender` and, for every other pair, what it held before. The map counts its keys
/// in a `u32` and adds one for a new key: a pair that the map does not hold yet is
/// only admitted while the count is below `u32::MAX`.
#[verifier::external_body]
pub(crate) fn allowance_map_insert(
    m: &mut AllowanceMap,
    owner: AccountId,
    spender: AccountId,
    value: Balance,
)
    requires
        allowance_entries(*old(m)).dom().finite(),
        allowance_entries(*old(m)).dom().contains((owner, spender))
            || allowance_entries(*old(m)).dom().len() < u32::MAX,
    ensures
        allowance_entries(*final(m)) == allowance_entries(*old(m)).insert((owner, spender), value),
{
    m.inner.insert((owner.0, spender.0), value);
}

/// Calls `ink_storage::collections::HashMap::get`.
///
/// Claims that it gives the allowance that the map holds for the pair of `owner` and
/// `spender`, and `None` where the map holds none.
#[verifier::external_body]
pub(crate) fn allowance_map_get(m: &AllowanceMap, owner: AccountId, spender: AccountId) -> (value:
    Option<Balance>)
    ensures
        value == (if allowance_entries(*m).dom().contains((owner, spender)) {
            Some(allowance_entries(*m)[(owner, spender)])
        } else {
            None
        }),
{
    m.inner.get(&(owner.0, spender.0)).copied()
}

/// Calls `ink_storage::collections::HashMap::len`.
///
/// Claims that it gives the number of pairs that the map holds an allowance for.
#[verifier::external_body]
pub(crate) fn allowance_map_len(m: &AllowanceMap) -> (n: u32)
    requires
        allowance_entries(*m).dom().finite(),
    ensures
        n == allowance_entries(*m).dom().len(),
{
    m.inner.len()
}

/// Calls `ink_storage::collections::HashMap::new`.
///
/// Claims that the map it makes holds no trade.
#[verifier::external_body]
pub(crate) fn trade_map_new() -> (m: TradeMap)
    ensures
        trade_entries(m) =~= Map::empty(),
{
    TradeMap { inner: StorageHashMap::new() }
}

/// Calls `ink_storage::collections::HashMap::insert`.
///
/// Claims that afterwards the map holds `record` under `key` and, under every other
/// key, what it held before. The map counts its keys in a `u32` and adds one for a
/// new key: a key that the map does not hold yet is only admitted while the count is
/// below `u32::MAX`.
#[verifier::external_body]
pub(crate) fn trade_map_insert(m: &mut TradeMap, key: TradeKey, record: TradeRecord)
    requires
        trade_entries(*old(m)).dom().finite(),
        trade_entries(*old(m)).dom().contains(key) || trade_entries(*old(m)).dom().len()
            < u32::MAX,
    ensures
        trade_entries(*final(m)) == trade_entries(*old(m)).insert(key, record),
{
    m.inner.insert(key.0, (record.0.0, record.1.0, record.2, record.3));
}

/// Calls `ink_storage::collections::HashMap::get`.
///
/// Claims that it gives the record that the map holds under `key`, and `None` where
/// the map holds none.
#[verifier::external_body]
pub(crate) fn trade_map_get(m: &TradeMap, key: TradeKey) -> (record: Option<TradeRecord>)
    ensures
        record == (if trade_entries(*m).dom().contains(key) {
            Some(trade_entries(*m)[key])
        } else {
            None
        }),
{
    m.inner.get(&key.0).map(|r| (AccountId(r.0), AccountId(r.1), r.2, r.3))
}

/// Calls `ink_storage::collections::HashMap::new`.
///
/// Claims that the map it makes holds no registration.
#[verifier::external_body]
pub(crate) fn identity_map_new() -> (m: IdentityMap)
    ensures
        identity_entries(m) =~= Map::empty(),
{
    IdentityMap { inner: StorageHashMap::new() }
}

/// Calls `ink_storage::collections::HashMap::insert`.
///
/// Claims that afterwards the map holds `identity` for `id` and, for every other
/// identifier, what it held before. The map counts its keys in a `u32` and adds one
/// for a new key: an identifier that the map does not hold yet is only admitted while
/// the count is below `u32::MAX`.
#[verifier::external_body]
pub(crate) fn identity_map_insert(m: &mut IdentityMap, id: u128, identity: Identity)
    requires
        identity_entries(*old(m)).dom().finite(),
        identity_entries(*old(m)).dom().contains(id) || identity_entries(*old(m)).dom().len()
            < u32::MAX,
    ensures
        identity_entries(*final(m)) == identity_entries(*old(m)).insert(id, identity),
{
    m.inner.insert(id, identity);
}

/// Calls `ink_storage::collections::HashMap::get`.
///
/// Claims that it gives what the map holds for `id`, and `None` where the map holds
/// nothing for it.
#[verifier::external_body]
pub(crate) fn identity_map_get(m: &IdentityMap, id: u128) -> (identity: Option<Identity>)
    ensures
        identity == (if identity_entries(*m).dom().contains(id) {
            Some(identity_entries(*m)[id])
        } else {
            None
        }),
{
    m.inner.get(&id).copied()
}

} // verus!
