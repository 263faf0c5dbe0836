//! A ledger of one token, with balances, allowances and a record of executed trades,
//! and beside it a store that records trades alone.
//!
//! Every operation runs to its end before the next one starts. An operation that
//! changes the state takes the caller as an argument and hands back, beside its
//! result, the notifications that the host has to announce: the library itself
//! announces nothing and asks its host for nothing.
//!
//! - [`ledger`] holds the ledger, [`storage`] the record-only store, and
//!   [`recorder`] the record of trades that both keep.
//! - [`model`] says what each operation of the ledger does, as a function from the
//!   state before to the state after, and [`laws`] what follows for every state.
//! - [`account`], [`key`], [`event`] and [`error`] hold the plain values that go in
//!   and out.
//! - [`balances`] adds up balances, and [`store`] holds the storage maps.

pub mod account;
pub mod balances;
pub mod error;
pub mod event;
pub mod key;
pub mod laws;
pub mod ledger;
pub mod model;
pub mod recorder;
pub mod storage;
pub mod store;
