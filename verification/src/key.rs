//! Derivation of the 32-byte storage key under which a trade is recorded.

use vstd::prelude::*;
use vstd::set_lib::*;

verus! {

/// The key of a recorded trade.
#[derive(Clone, Copy, Debug, PartialEq, Eq, PartialOrd, Ord, Hash)]
pub struct TradeKey(pub [u8; 32]);

/// The key of trade identifier `id`: the byte `id` in each of its 32 positions.
pub open spec fn spec_trade_key(id: u8) -> TradeKey {
    TradeKey(vstd::array::spec_array_fill_for_copy_type::<u8, 32>(id))
}

/// Every key that a trade identifier can give.
pub open spec fn trade_keys() -> Set<TradeKey> {
    Set::new(|key: TradeKey| exists|id: u8| key == spec_trade_key(id))
}

/// Derives the key of trade identifier `id`.
pub fn trade_key(id: u8) -> (key: TradeKey)
    ensures
        key == spec_trade_key(id),
        trade_keys().contains(key),
        forall|i: int| 0 <= i < 32 ==> key.0[i] == id,
{
    TradeKey([id; 32])
}

/// Different identifiers give different keys.
pub proof fn lemma_trade_key_injective(a: u8, b: u8)
    ensures
        spec_trade_key(a) == spec_trade_key(b) <==> a == b,
{
    if spec_trade_key(a) == spec_trade_key(b) {
        assert(spec_trade_key(a).0[0] == a);
        assert(spec_trade_key(b).0[0] == b);
    }
}

/// There are at most 256 trade keys.
pub proof fn lemma_trade_keys_bounded()
    ensures
        trade_keys().finite(),
        trade_keys().len() <= 256,
{
    let ids = set_int_range(0, 256);
    let f = |i: int| spec_trade_key(i as u8);
    lemma_int_range(0, 256);
    assert forall|key: TradeKey| trade_keys().contains(key) implies ids.map(f).contains(key) by {
        let id = choose|id: u8| key == spec_trade_key(id);
        assert(ids.contains(id as int));
        assert(f(id as int) == key);
    }
    assert forall|key: TradeKey| ids.map(f).contains(key) implies trade_keys().contains(key) by {
        let i = choose|i: int| ids.contains(i) && key == f(i);
        assert(key == spec_trade_key(i as u8));
    }
    assert(ids.map(f) =~= trade_keys());
    lemma_map_size_bound(ids, trade_keys(), f);
}

} // verus!
