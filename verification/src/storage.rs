//! The record-only store: trades and the registration of one simulation, with no
//! balances to check a trade against.

use vstd::prelude::*;
use crate::account::{AccountId, Balance};
use crate::error::Error;
use crate::event::Event;
use crate::key::TradeKey;
use crate::recorder::{spec_record_of, spec_recorded, spec_trade_event, trades_wf, TradeRecorder};
use crate::store::{
    identity_entries, identity_map_get, identity_map_insert, identity_map_new, Identity,
    IdentityMap, TradeRecord,
};

verus! {

/// What a [`TradeStorage`] holds.
#[verifier::ext_equal]
pub struct TradeStorageState {
    /// The recorded trades, by key.
    pub trades: Map<TradeKey, TradeRecord>,
    /// The area and the time of creation of each registered simulation.
    pub identities: Map<u128, Identity>,
}

impl TradeStorageState {
    /// The state of a store created for the simulation `simulation_id`: no trade, and
    /// that one simulation registered.
    pub open spec fn initial(
        simulation_id: u128,
        area_id: u128,
        timestamp: u32,
    ) -> TradeStorageState {
        TradeStorageState {
            trades: Map::empty(),
            identities: Map::empty().insert(simulation_id, (area_id, timestamp)),
        }
    }

    /// The state after a trade was recorded for the identifier `id`.
    pub open spec fn trade(
        self,
        id: u8,
        buyer: AccountId,
        seller: AccountId,
        value: Balance,
        rate: i8,
    ) -> TradeStorageState {
        TradeStorageState {
            trades: spec_recorded(self.trades, id, buyer, seller, value, rate),
            identities: self.identities,
        }
    }

    /// The trade held for the identifier `id`, or the empty record.
    pub open spec fn get_trades(self, id: u8) -> TradeRecord {
        spec_record_of(self.trades, id)
    }

    /// Whether the simulation `id` is registered.
    pub open spec fn is_registered(self, id: u128) -> bool {
        self.identities.dom().contains(id)
    }

    /// The invariant of the state: trades are held under trade keys only, and
    /// finitely many simulations are registered.
    pub open spec fn wf(self) -> bool {
        &&& trades_wf(self.trades)
        &&& self.identities.dom().finite()
    }
}

/// A store of trades that records every trade it is given.
pub struct TradeStorage {
    /// The trades stored.
    trades: TradeRecorder,
    area_market_id: IdentityMap,
}

impl View for TradeStorage {
    type V = TradeStorageState;

    closed spec fn view(&self) -> TradeStorageState {
        TradeStorageState {
            trades: self.trades@,
            identities: identity_entries(self.area_market_id),
        }
    }
}

impl TradeStorage {
    /// The store's invariant: see [`TradeStorageState::wf`].
    pub open spec fn wf(&self) -> bool {
        self@.wf()
    }

    /// Creates a store that holds no trade and registers the simulation
    /// `simulation_id` with its area and time of creation.
    pub fn new(simulation_id: u128, area_id: u128, timestamp: u32) -> (storage: TradeStorage)
        ensures
            storage.wf(),
            storage@ == TradeStorageState::initial(simulation_id, area_id, timestamp),
    {
        let trades = TradeRecorder::new();
        let mut area_market_id = identity_map_new();
        identity_map_insert(&mut area_market_id, simulation_id, (area_id, timestamp));
        TradeStorage { trades, area_market_id }
    }

    /// Records the trade under the key of `id`, in place of what was recorded there.
    ///
    /// There is no balance to check the trade against: every trade is recorded, and
    /// the one notification handed back is that of the trade.
    pub fn trade(
        &mut self,
        id: u8,
        buyer: AccountId,
        seller: AccountId,
        value: Balance,
        rate: i8,
    ) -> (outcome: (Result<(), Error>, Vec<Event>))
        requires
            old(self).wf(),
        ensures
            final(self).wf(),
            outcome.0 is Ok,
            final(self)@ == old(self)@.trade(id, buyer, seller, value, rate),
            outcome.1@ == seq![Event::Trade(spec_trade_event(id, buyer, seller, value, rate))],
    {
        let event = self.trades.record(id, buyer, seller, value, rate);
        let mut events: Vec<Event> = Vec::new();
        events.push(Event::Trade(event));
        (Ok(()), events)
    }

    /// Returns the trade recorded for `id`, or the empty record where there is none.
    pub fn get_trades(&self, id: u8) -> (record: TradeRecord)
        ensures
            record == self@.get_trades(id),
    {
        self.trades.lookup(id)
    }

    /// Returns the area and the time of creation of the simulation `id`, or `None`
    /// where `id` is not registered.
    pub fn find_contract_identity(&self, id: u128) -> (identity: Option<Identity>)
        ensures
            identity == (if self@.is_registered(id) {
                Some(self@.identities[id])
            } else {
                None
            }),
    {
        identity_map_get(&self.area_market_id, id)
    }

    /// Returns the area and the time of creation of the simulation `id`, which has to
    /// be registered: [`TradeStorage::find_contract_identity`] takes any `id`.
    pub fn get_contract_identity(&self, id: u128) -> (identity: Identity)
        requires
            self@.is_registered(id),
        ensures
            identity == self@.identities[id],
    {
        match identity_map_get(&self.area_market_id, id) {
            Some(identity) => identity,
            None => unreached(),
        }
    }
}

} // verus!
