//! The record of executed trades: at most one trade under each trade key, the
//! latest one written there.

use vstd::prelude::*;
use vstd::set_lib::*;
use crate::account::{AccountId, Balance};
use crate::event::Trade;
use crate::key::{lemma_trade_keys_bounded, spec_trade_key, trade_key, trade_keys, TradeKey};
use crate::store::{
    trade_entries, trade_map_get, trade_map_insert, trade_map_new, TradeMap, TradeRecord,
};

verus! {

/// What a lookup gives where no trade was recorded: zero accounts, zero amount, zero
/// rate.
pub open spec fn spec_empty_record() -> TradeRecord {
    (AccountId::spec_zero(), AccountId::spec_zero(), 0, 0)
}

/// The trade that `trades` holds for the identifier `id`, or the empty record.
pub open spec fn spec_record_of(trades: Map<TradeKey, TradeRecord>, id: u8) -> TradeRecord {
    if trades.dom().contains(spec_trade_key(id)) {
        trades[spec_trade_key(id)]
    } else {
        spec_empty_record()
    }
}

/// `trades` after a trade was recorded for the identifier `id`: what was held under
/// the key of `id` is replaced.
pub open spec fn spec_recorded(
    trades: Map<TradeKey, TradeRecord>,
    id: u8,
    buyer: AccountId,
    seller: AccountId,
    value: Balance,
    rate: i8,
) -> Map<TradeKey, TradeRecord> {
    trades.insert(spec_trade_key(id), (buyer, seller, value, rate))
}

/// The notification of a trade recorded for the identifier `id`.
pub open spec fn spec_trade_event(
    id: u8,
    buyer: AccountId,
    seller: AccountId,
    value: Balance,
    rate: i8,
) -> Trade {
    Trade { hash: spec_trade_key(id), buyer: Some(buyer), seller: Some(seller), value, rate }
}

/// Trades are held under trade keys only, so there are finitely many of them.
pub open spec fn trades_wf(trades: Map<TradeKey, TradeRecord>) -> bool {
    &&& trades.dom().finite()
    &&& trades.dom().subset_of(trade_keys())
}

/// A map of trades that is held under trade keys only has at most 256 entries.
pub proof fn lemma_trades_bounded(trades: Map<TradeKey, TradeRecord>)
    requires
        trades_wf(trades),
    ensures
        trades.dom().len() <= 256,
{
    lemma_trade_keys_bounded();
    lemma_len_subset(trades.dom(), trade_keys());
}

/// Recording a trade keeps the map well formed.
pub proof fn lemma_recorded_wf(
    trades: Map<TradeKey, TradeRecord>,
    id: u8,
    buyer: AccountId,
    seller: AccountId,
    value: Balance,
    rate: i8,
)
    requires
        trades_wf(trades),
    ensures
        trades_wf(spec_recorded(trades, id, buyer, seller, value, rate)),
{
    assert(trade_keys().contains(spec_trade_key(id)));
}

/// The store of recorded trades.
pub struct TradeRecorder {
    entries: TradeMap,
}

impl View for TradeRecorder {
    type V = Map<TradeKey, TradeRecord>;

    closed spec fn view(&self) -> Map<TradeKey, TradeRecord> {
        trade_entries(self.entries)
    }
}

impl TradeRecorder {
    /// The recorder's invariant: see [`trades_wf`].
    pub open spec fn wf(&self) -> bool {
        trades_wf(self@)
    }

    /// Makes a recorder that holds no trade.
    pub fn new() -> (recorder: TradeRecorder)
        ensures
            recorder.wf(),
            recorder@ == Map::<TradeKey, TradeRecord>::empty(),
    {
        TradeRecorder { entries: trade_map_new() }
    }

    /// Records a trade under the key of `id`, in place of what was recorded there,
    /// and returns the notification of it.
    pub fn record(
        &mut self,
        id: u8,
        buyer: AccountId,
        seller: AccountId,
        value: Balance,
        rate: i8,
    ) -> (event: Trade)
        requires
            old(self).wf(),
        ensures
            final(self).wf(),
            final(self)@ == spec_recorded(old(self)@, id, buyer, seller, value, rate),
            event == spec_trade_event(id, buyer, seller, value, rate),
    {
        let key = trade_key(id);
        proof {
            lemma_trades_bounded(self@);
            lemma_recorded_wf(self@, id, buyer, seller, value, rate);
        }
        trade_map_insert(&mut self.entries, key, (buyer, seller, value, rate));
        Trade { hash: key, buyer: Some(buyer), seller: Some(seller), value, rate }
    }

    /// Returns the trade recorded for `id`, or the empty record where there is none.
    pub fn lookup(&self, id: u8) -> (record: TradeRecord)
        ensures
            record == spec_record_of(self@, id),
    {
        match trade_map_get(&self.entries, trade_key(id)) {
            Some(record) => record,
            None => (AccountId::zero(), AccountId::zero(), 0, 0),
        }
    }
}

} // verus!
