use trade_storage::account::AccountId;
use trade_storage::error::Error;
use trade_storage::event::{Event, Trade};
use trade_storage::key::{trade_key, TradeKey};
use trade_storage::storage::TradeStorage;

fn account(tag: u8) -> AccountId {
    AccountId([tag; 32])
}

#[test]
fn new_store_registers_its_simulation() {
    let storage = TradeStorage::new(42, 7, 1_600_000_000);
    assert_eq!(storage.get_contract_identity(42), (7, 1_600_000_000));
    assert_eq!(storage.find_contract_identity(42), Some((7, 1_600_000_000)));
}

#[test]
fn unknown_simulation_is_not_found() {
    let storage = TradeStorage::new(42, 7, 9);
    assert_eq!(storage.find_contract_identity(41), None);
    assert_eq!(storage.find_contract_identity(0), None);
    assert_eq!(storage.find_contract_identity(u128::MAX), None);
}

#[test]
fn new_store_holds_no_trade() {
    let storage = TradeStorage::new(1, 2, 3);
    let zero = AccountId([0u8; 32]);
    assert_eq!(storage.get_trades(0), (zero, zero, 0, 0));
    assert_eq!(storage.get_trades(5), (zero, zero, 0, 0));
    assert_eq!(storage.get_trades(255), (zero, zero, 0, 0));
}

#[test]
fn every_trade_is_recorded_and_announced() {
    let (buyer, seller) = (account(1), account(2));
    let mut storage = TradeStorage::new(1, 2, 3);
    let (result, events) = storage.trade(5, buyer, seller, u128::MAX, -7);
    assert_eq!(result, Ok(()));
    assert_ne!(result, Err(Error::InsufficientBalance));
    assert_eq!(
        events,
        vec![Event::Trade(Trade {
            hash: TradeKey([5u8; 32]),
            buyer: Some(buyer),
            seller: Some(seller),
            value: u128::MAX,
            rate: -7,
        })]
    );
    assert_eq!(storage.get_trades(5), (buyer, seller, u128::MAX, -7));
}

#[test]
fn a_trade_with_the_same_id_replaces_the_record() {
    let (a, b, c) = (account(1), account(2), account(3));
    let mut storage = TradeStorage::new(1, 2, 3);
    assert_eq!(storage.trade(5, a, b, 10, 1).0, Ok(()));
    assert_eq!(storage.trade(5, c, a, 20, 2).0, Ok(()));
    assert_eq!(storage.get_trades(5), (c, a, 20, 2));
}

#[test]
fn trades_with_other_ids_stay_as_they_are() {
    let (a, b) = (account(1), account(2));
    let mut storage = TradeStorage::new(1, 2, 3);
    assert_eq!(storage.trade(4, a, b, 10, 1).0, Ok(()));
    assert_eq!(storage.trade(6, b, a, 20, 2).0, Ok(()));
    assert_eq!(storage.get_trades(4), (a, b, 10, 1));
    assert_eq!(storage.get_trades(6), (b, a, 20, 2));
    let zero = AccountId([0u8; 32]);
    assert_eq!(storage.get_trades(5), (zero, zero, 0, 0));
}

#[test]
fn all_ids_can_be_traded() {
    let (a, b) = (account(1), account(2));
    let mut storage = TradeStorage::new(1, 2, 3);
    for id in 0..=255u8 {
        assert_eq!(storage.trade(id, a, b, id as u128, 0).0, Ok(()));
    }
    for id in 0..=255u8 {
        assert_eq!(storage.get_trades(id), (a, b, id as u128, 0));
    }
}

#[test]
fn trades_leave_the_registration_alone() {
    let (a, b) = (account(1), account(2));
    let mut storage = TradeStorage::new(9, 8, 7);
    assert_eq!(storage.trade(9, a, b, 1, 1).0, Ok(()));
    assert_eq!(storage.get_contract_identity(9), (8, 7));
    assert_eq!(storage.find_contract_identity(8), None);
}

#[test]
fn trade_key_repeats_the_id_in_every_byte() {
    assert_eq!(trade_key(0), TradeKey([0u8; 32]));
    assert_eq!(trade_key(5), TradeKey([5u8; 32]));
    assert_eq!(trade_key(255), TradeKey([255u8; 32]));
    assert_ne!(trade_key(5), trade_key(6));
}

#[test]
fn default_account_is_all_zero() {
    assert_eq!(AccountId::default(), AccountId([0u8; 32]));
    assert_eq!(AccountId::zero(), AccountId([0u8; 32]));
}
