use trade_storage::account::{AccountId, Balance};
use trade_storage::event::{Approval, Event, Trade, Transfer};
use trade_storage::key::trade_key;
use trade_storage::ledger::Ledger;

fn account(tag: u8) -> AccountId {
    AccountId([tag; 32])
}

fn transfer_event(from: AccountId, to: AccountId, value: Balance) -> Event {
    Event::Transfer(Transfer { from: Some(from), to: Some(to), value })
}

fn sum_of_balances(ledger: &Ledger, accounts: &[AccountId]) -> Balance {
    let mut sum: Balance = 0;
    for a in accounts {
        sum += ledger.balance_of(*a);
    }
    sum
}

#[test]
fn construction_credits_the_whole_supply_to_the_creator() {
    let (alice, bob) = (account(1), account(2));
    let (ledger, events) = Ledger::new(alice, 100);
    assert_eq!(ledger.total_supply(), 100);
    assert_eq!(ledger.balance_of(alice), 100);
    assert_eq!(ledger.balance_of(bob), 0);
    assert_eq!(ledger.balance_of(AccountId::default()), 0);
    assert_eq!(
        events,
        vec![Event::Transfer(Transfer { from: None, to: Some(alice), value: 100 })]
    );
    assert!(ledger.has_room());
}

#[test]
fn construction_with_no_supply() {
    let alice = account(1);
    let (ledger, events) = Ledger::new(alice, 0);
    assert_eq!(ledger.total_supply(), 0);
    assert_eq!(ledger.balance_of(alice), 0);
    assert_eq!(
        events,
        vec![Event::Transfer(Transfer { from: None, to: Some(alice), value: 0 })]
    );
}

#[test]
fn construction_with_the_largest_supply() {
    let (alice, bob) = (account(1), account(2));
    let (mut ledger, _) = Ledger::new(alice, Balance::MAX);
    assert_eq!(ledger.total_supply(), Balance::MAX);
    assert_eq!(ledger.transfer(alice, bob, Balance::MAX).0, true);
    assert_eq!(ledger.balance_of(alice), 0);
    assert_eq!(ledger.balance_of(bob), Balance::MAX);
    assert_eq!(ledger.transfer(bob, bob, Balance::MAX).0, true);
    assert_eq!(ledger.balance_of(bob), Balance::MAX);
}

#[test]
fn transfer_moves_tokens_and_refuses_more_than_the_balance() {
    let (alice, bob) = (account(1), account(2));
    let (mut ledger, _) = Ledger::new(alice, 100);

    let (ok, events) = ledger.transfer(alice, bob, 10);
    assert!(ok);
    assert_eq!(events, vec![transfer_event(alice, bob, 10)]);
    assert_eq!(ledger.balance_of(bob), 10);
    assert_eq!(ledger.balance_of(alice), 90);

    let (ok, events) = ledger.transfer(alice, bob, 100);
    assert!(!ok);
    assert!(events.is_empty());
    assert_eq!(ledger.balance_of(bob), 10);
    assert_eq!(ledger.balance_of(alice), 90);
    assert_eq!(ledger.total_supply(), 100);
}

#[test]
fn transfer_of_exactly_the_balance_succeeds() {
    let (alice, bob) = (account(1), account(2));
    let (mut ledger, _) = Ledger::new(alice, 100);
    assert!(ledger.transfer(alice, bob, 100).0);
    assert_eq!(ledger.balance_of(alice), 0);
    assert_eq!(ledger.balance_of(bob), 100);
    assert!(!ledger.transfer(alice, bob, 1).0);
}

#[test]
fn transfer_from_an_account_without_tokens_fails() {
    let (alice, bob, carol) = (account(1), account(2), account(3));
    let (mut ledger, _) = Ledger::new(alice, 100);
    let (ok, events) = ledger.transfer(bob, carol, 1);
    assert!(!ok);
    assert!(events.is_empty());
    assert_eq!(ledger.balance_of(bob), 0);
    assert_eq!(ledger.balance_of(carol), 0);
    assert_eq!(ledger.balance_of(alice), 100);
}

#[test]
fn transfer_to_oneself_changes_no_balance_and_is_announced() {
    let alice = account(1);
    let (mut ledger, _) = Ledger::new(alice, 100);
    let (ok, events) = ledger.transfer(alice, alice, 40);
    assert!(ok);
    assert_eq!(events, vec![transfer_event(alice, alice, 40)]);
    assert_eq!(ledger.balance_of(alice), 100);
}

#[test]
fn transfer_of_nothing_succeeds() {
    let (alice, bob) = (account(1), account(2));
    let (mut ledger, _) = Ledger::new(alice, 100);
    let (ok, events) = ledger.transfer(bob, alice, 0);
    assert!(ok);
    assert_eq!(events, vec![transfer_event(bob, alice, 0)]);
    assert_eq!(ledger.balance_of(alice), 100);
    assert_eq!(ledger.balance_of(bob), 0);
}

#[test]
fn balances_add_up_to_the_supply_after_every_operation() {
    let accounts = [account(1), account(2), account(3), account(4)];
    let (a, b, c, d) = (accounts[0], accounts[1], accounts[2], accounts[3]);
    let (mut ledger, _) = Ledger::new(a, 1000);
    assert_eq!(sum_of_balances(&ledger, &accounts), 1000);

    assert!(ledger.transfer(a, b, 300).0);
    assert_eq!(sum_of_balances(&ledger, &accounts), 1000);
    assert!(ledger.transfer(b, c, 120).0);
    assert_eq!(sum_of_balances(&ledger, &accounts), 1000);
    assert!(!ledger.transfer(c, d, 121).0);
    assert_eq!(sum_of_balances(&ledger, &accounts), 1000);
    assert!(ledger.approve(a, d, 500).0);
    assert!(ledger.transfer_from(d, a, c, 200).0);
    assert_eq!(sum_of_balances(&ledger, &accounts), 1000);
    assert!(ledger.trade(9, d, c, 320, -4).0);
    assert_eq!(sum_of_balances(&ledger, &accounts), 1000);
    assert!(ledger.trade(9, c, c, 0, 1).0);
    assert_eq!(sum_of_balances(&ledger, &accounts), 1000);

    assert_eq!(ledger.balance_of(a), 500);
    assert_eq!(ledger.balance_of(b), 180);
    assert_eq!(ledger.balance_of(c), 0);
    assert_eq!(ledger.balance_of(d), 320);
    assert_eq!(ledger.total_supply(), 1000);
}

#[test]
fn allowance_is_consumed_by_transfer_from() {
    let (owner, spender, target) = (account(1), account(2), account(3));
    let (mut ledger, _) = Ledger::new(owner, 100);

    let (ok, events) = ledger.approve(owner, spender, 50);
    assert!(ok);
    assert_eq!(
        events,
        vec![Event::Approval(Approval { owner, spender, value: 50 })]
    );
    assert_eq!(ledger.allowance(owner, spender), 50);

    let (ok, events) = ledger.transfer_from(spender, owner, target, 30);
    assert!(ok);
    assert_eq!(events, vec![transfer_event(owner, target, 30)]);
    assert_eq!(ledger.allowance(owner, spender), 20);
    assert_eq!(ledger.balance_of(owner), 70);
    assert_eq!(ledger.balance_of(target), 30);
    assert_eq!(ledger.balance_of(spender), 0);

    let (ok, events) = ledger.transfer_from(spender, owner, target, 30);
    assert!(!ok);
    assert!(events.is_empty());
    assert_eq!(ledger.allowance(owner, spender), 20);
    assert_eq!(ledger.balance_of(owner), 70);
    assert_eq!(ledger.balance_of(target), 30);
}

#[test]
fn transfer_from_needs_an_allowance_for_the_caller() {
    let (owner, spender, other) = (account(1), account(2), account(3));
    let (mut ledger, _) = Ledger::new(owner, 100);
    assert!(ledger.approve(owner, spender, 50).0);
    // The allowance is the spender's, not anybody else's, and not the owner's own.
    assert!(!ledger.transfer_from(other, owner, other, 1).0);
    assert!(!ledger.transfer_from(owner, owner, other, 1).0);
    // An allowance given in the other direction does not count either.
    assert!(!ledger.transfer_from(owner, spender, other, 1).0);
    assert_eq!(ledger.allowance(owner, spender), 50);
    assert_eq!(ledger.balance_of(owner), 100);
    assert_eq!(ledger.balance_of(other), 0);
}

#[test]
fn transfer_from_beyond_the_balance_changes_nothing() {
    let (owner, spender, target) = (account(1), account(2), account(3));
    let (mut ledger, _) = Ledger::new(owner, 10);
    assert!(ledger.approve(owner, spender, 50).0);
    let (ok, events) = ledger.transfer_from(spender, owner, target, 11);
    assert!(!ok);
    assert!(events.is_empty());
    assert_eq!(ledger.allowance(owner, spender), 50);
    assert_eq!(ledger.balance_of(owner), 10);
    assert_eq!(ledger.balance_of(target), 0);
    // Within the balance the same allowance still works.
    assert!(ledger.transfer_from(spender, owner, target, 10).0);
    assert_eq!(ledger.allowance(owner, spender), 40);
    assert_eq!(ledger.balance_of(target), 10);
}

#[test]
fn approve_overwrites_the_allowance() {
    let (owner, spender) = (account(1), account(2));
    let (mut ledger, _) = Ledger::new(owner, 100);
    assert!(ledger.approve(owner, spender, 50).0);
    assert!(ledger.approve(owner, spender, 7).0);
    assert_eq!(ledger.allowance(owner, spender), 7);
    assert!(ledger.approve(owner, spender, 0).0);
    assert_eq!(ledger.allowance(owner, spender), 0);
}

#[test]
fn approve_of_more_than_the_balance_is_permitted() {
    let (owner, spender) = (account(1), account(2));
    let (mut ledger, _) = Ledger::new(owner, 100);
    let (ok, events) = ledger.approve(owner, spender, Balance::MAX);
    assert!(ok);
    assert_eq!(
        events,
        vec![Event::Approval(Approval { owner, spender, value: Balance::MAX })]
    );
    assert_eq!(ledger.allowance(owner, spender), Balance::MAX);
    assert_eq!(ledger.balance_of(owner), 100);
}

#[test]
fn approve_keeps_the_allowances_of_other_pairs() {
    let (a, b, c) = (account(1), account(2), account(3));
    let (mut ledger, _) = Ledger::new(a, 100);
    assert!(ledger.approve(a, b, 5).0);
    assert!(ledger.approve(a, c, 6).0);
    assert!(ledger.approve(b, a, 7).0);
    assert_eq!(ledger.allowance(a, b), 5);
    assert_eq!(ledger.allowance(a, c), 6);
    assert_eq!(ledger.allowance(b, a), 7);
    assert_eq!(ledger.allowance(c, a), 0);
}

#[test]
fn lookups_of_what_was_never_written_give_zero() {
    let (alice, bob, carol) = (account(1), account(2), account(3));
    let (ledger, _) = Ledger::new(alice, 100);
    assert_eq!(ledger.balance_of(bob), 0);
    assert_eq!(ledger.allowance(alice, bob), 0);
    assert_eq!(ledger.allowance(bob, carol), 0);
    let zero = AccountId([0u8; 32]);
    assert_eq!(ledger.get_trades(0), (zero, zero, 0, 0));
    assert_eq!(ledger.get_trades(77), (zero, zero, 0, 0));
    assert_eq!(ledger.get_trades(255), (zero, zero, 0, 0));
}

#[test]
fn trade_with_the_same_id_overwrites_the_record() {
    let (a, b, c) = (account(1), account(2), account(3));
    let (mut ledger, _) = Ledger::new(a, 100);
    assert!(ledger.trade(5, b, a, 10, 3).0);
    assert_eq!(ledger.get_trades(5), (b, a, 10, 3));
    assert!(ledger.trade(5, c, b, 4, -2).0);
    assert_eq!(ledger.get_trades(5), (c, b, 4, -2));
    assert_eq!(ledger.balance_of(a), 90);
    assert_eq!(ledger.balance_of(b), 6);
    assert_eq!(ledger.balance_of(c), 4);
}

#[test]
fn trades_with_different_ids_are_kept_apart() {
    let (a, b) = (account(1), account(2));
    let (mut ledger, _) = Ledger::new(a, 100);
    assert!(ledger.trade(0, b, a, 1, 1).0);
    assert!(ledger.trade(255, b, a, 2, 2).0);
    assert!(ledger.trade(1, b, a, 3, 3).0);
    assert_eq!(ledger.get_trades(0), (b, a, 1, 1));
    assert_eq!(ledger.get_trades(255), (b, a, 2, 2));
    assert_eq!(ledger.get_trades(1), (b, a, 3, 3));
    let zero = AccountId([0u8; 32]);
    assert_eq!(ledger.get_trades(2), (zero, zero, 0, 0));
}

#[test]
fn trade_succeeds_within_the_sellers_balance_and_fails_beyond_it() {
    let (buyer, seller) = (account(1), account(2));
    let (mut ledger, _) = Ledger::new(seller, 50);

    let (ok, events) = ledger.trade(8, buyer, seller, 51, 2);
    assert!(!ok);
    assert!(events.is_empty());
    assert_eq!(ledger.balance_of(seller), 50);
    assert_eq!(ledger.balance_of(buyer), 0);
    let zero = AccountId([0u8; 32]);
    assert_eq!(ledger.get_trades(8), (zero, zero, 0, 0));

    let (ok, events) = ledger.trade(8, buyer, seller, 20, -128);
    assert!(ok);
    assert_eq!(
        events,
        vec![Event::Trade(Trade {
            hash: trade_key(8),
            buyer: Some(buyer),
            seller: Some(seller),
            value: 20,
            rate: -128,
        })]
    );
    assert_eq!(ledger.balance_of(buyer), 20);
    assert_eq!(ledger.balance_of(seller), 30);
    assert_eq!(ledger.get_trades(8), (buyer, seller, 20, -128));

    // A refused trade leaves the record of the earlier one in place.
    let (ok, _) = ledger.trade(8, seller, buyer, 21, 5);
    assert!(!ok);
    assert_eq!(ledger.get_trades(8), (buyer, seller, 20, -128));
    assert_eq!(ledger.balance_of(buyer), 20);
    assert_eq!(ledger.balance_of(seller), 30);
}

#[test]
fn trade_asks_for_no_allowance() {
    let (buyer, seller) = (account(1), account(2));
    let (mut ledger, _) = Ledger::new(seller, 50);
    assert_eq!(ledger.allowance(seller, buyer), 0);
    assert!(ledger.trade(1, buyer, seller, 50, 127).0);
    assert_eq!(ledger.balance_of(buyer), 50);
    assert_eq!(ledger.allowance(seller, buyer), 0);
}

#[test]
fn trade_with_oneself_changes_no_balance_and_is_recorded() {
    let a = account(1);
    let (mut ledger, _) = Ledger::new(a, Balance::MAX);
    assert!(ledger.trade(3, a, a, Balance::MAX, 1).0);
    assert_eq!(ledger.balance_of(a), Balance::MAX);
    assert_eq!(ledger.get_trades(3), (a, a, Balance::MAX, 1));
}

#[test]
fn accounts_that_differ_in_one_byte_are_different_accounts() {
    let a = account(1);
    let mut bytes = [1u8; 32];
    bytes[31] = 2;
    let b = AccountId(bytes);
    let (mut ledger, _) = Ledger::new(a, 100);
    assert_eq!(ledger.balance_of(b), 0);
    assert!(ledger.transfer(a, b, 1).0);
    assert_eq!(ledger.balance_of(a), 99);
    assert_eq!(ledger.balance_of(b), 1);
}
