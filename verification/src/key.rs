use vstd::prelude::*;

verus! {

/// The weight of the timestamp inside a record key: 2^64.
pub open spec fn timestamp_weight() -> int {
    0x1_0000_0000_0000_0000
}

/// The key of the price record of `asset` at `timestamp`: the timestamp in
/// the high 64 bits, the asset slot in the low 8 bits.
pub open spec fn price_key(timestamp: u64, asset: u8) -> int {
    timestamp * timestamp_weight() + asset
}

/// The key of the yield-rate record of `asset` at `timestamp`: the price key
/// with bit 8 set.
pub open spec fn yield_key(timestamp: u64, asset: u8) -> int {
    price_key(timestamp, asset) + 256
}

/// Packs a timestamp and an asset slot into the key of a price record.
pub fn encode_record_key(timestamp: u64, asset: u8) -> (key: u128)
    ensures
        key == price_key(timestamp, asset),
        key & 0x100 == 0,
{
    let key: u128 = ((timestamp as u128) << 64) | (asset as u128);
    assert(key == (timestamp as u128) * 0x1_0000_0000_0000_0000u128 + (asset as u128) && key
        & 0x100 == 0) by (bit_vector)
        requires
            key == ((timestamp as u128) << 64) | (asset as u128),
    ;
    key
}

/// Packs a timestamp and an asset slot into the key of a yield-rate record.
pub fn encode_yield_key(timestamp: u64, asset: u8) -> (key: u128)
    ensures
        key == yield_key(timestamp, asset),
        key & 0x100 == 0x100,
{
    let base: u128 = encode_record_key(timestamp, asset);
    let key: u128 = base | (1u128 << 8);
    assert(key == base + 256 && key & 0x100 == 0x100) by (bit_vector)
        requires
            base & 0x100 == 0,
            key == base | (1u128 << 8),
    ;
    key
}

/// Whether a key is that of a yield-rate record: whether its bit 8 is set.
pub fn is_yield_key(key: u128) -> (yield_record: bool)
    ensures
        yield_record == (key & 0x100 == 0x100),
{
    key & 0x100 == 0x100
}

/// Reads the timestamp and the asset slot back out of a key, of a price
/// record or of a yield-rate record.
pub fn decode_record_key(key: u128) -> (parts: (u64, u8))
    ensures
        parts.0 == key / 0x1_0000_0000_0000_0000,
        parts.1 == key % 256,
        forall|timestamp: u64, asset: u8|
            key == #[trigger] price_key(timestamp, asset) ==> parts == (timestamp, asset),
        forall|timestamp: u64, asset: u8|
            key == #[trigger] yield_key(timestamp, asset) ==> parts == (timestamp, asset),
{
    let timestamp: u64 = (key >> 64) as u64;
    let asset: u8 = (key & 0xff) as u8;
    assert(key >> 64 == key / 0x1_0000_0000_0000_0000 && key & 0xff == key % 256 && (key >> 64)
        <= 0xffff_ffff_ffff_ffff) by (bit_vector);
    assert forall|t: u64, a: u8| key == #[trigger] price_key(t, a) implies (timestamp, asset) == (
        t,
        a,
    ) by {
        lemma_key_parts(t, a);
    }
    assert forall|t: u64, a: u8| key == #[trigger] yield_key(t, a) implies (timestamp, asset) == (
        t,
        a,
    ) by {
        lemma_key_parts(t, a);
    }
    (timestamp, asset)
}

/// The parts of a key: dividing it by 2^64 gives the timestamp, its
/// remainder by 256 the asset slot.
pub proof fn lemma_key_parts(timestamp: u64, asset: u8)
    ensures
        price_key(timestamp, asset) / timestamp_weight() == timestamp,
        price_key(timestamp, asset) % 256 == asset,
        yield_key(timestamp, asset) / timestamp_weight() == timestamp,
        yield_key(timestamp, asset) % 256 == asset,
{
    let t = timestamp as int;
    let a = asset as int;
    assert((t * 0x1_0000_0000_0000_0000 + a) / 0x1_0000_0000_0000_0000 == t && (t
        * 0x1_0000_0000_0000_0000 + a + 256) / 0x1_0000_0000_0000_0000 == t) by (nonlinear_arith)
        requires
            0 <= a < 256,
    ;
    assert((t * 0x1_0000_0000_0000_0000 + a) % 256 == a && (t * 0x1_0000_0000_0000_0000 + a
        + 256) % 256 == a) by (nonlinear_arith)
        requires
            0 <= a < 256,
            0 <= t,
    ;
}

/// Two price keys are equal only for the same timestamp and the same asset.
pub proof fn lemma_price_key_injective(t1: u64, a1: u8, t2: u64, a2: u8)
    requires
        price_key(t1, a1) == price_key(t2, a2),
    ensures
        t1 == t2,
        a1 == a2,
{
    assert(t1 == t2 && a1 == a2) by (nonlinear_arith)
        requires
            t1 * 0x1_0000_0000_0000_0000 + a1 == t2 * 0x1_0000_0000_0000_0000 + a2,
            0 <= a1 < 256,
            0 <= a2 < 256,
    ;
}

/// Two yield-rate keys are equal only for the same timestamp and the same
/// asset.
pub proof fn lemma_yield_key_injective(t1: u64, a1: u8, t2: u64, a2: u8)
    requires
        yield_key(t1, a1) == yield_key(t2, a2),
    ensures
        t1 == t2,
        a1 == a2,
{
    lemma_price_key_injective(t1, a1, t2, a2);
}

/// No price record shares its key with a yield-rate record.
pub proof fn lemma_price_and_yield_keys_disjoint(t1: u64, a1: u8, t2: u64, a2: u8)
    ensures
        price_key(t1, a1) != yield_key(t2, a2),
{
    assert(t1 * 0x1_0000_0000_0000_0000 + a1 != t2 * 0x1_0000_0000_0000_0000 + a2 + 256)
        by (nonlinear_arith)
        requires
            0 <= a1 < 256,
            0 <= a2 < 256,
    ;
}

/// The keys of two different pairs of timestamp and asset, as 128-bit
/// values: no two of the four are equal, but for the price key and the
/// yield-rate key of one pair, which differ too.
pub proof fn lemma_other_keys(t1: u64, a1: u8, t2: u64, a2: u8)
    ensures
        price_key(t1, a1) as u128 != yield_key(t2, a2) as u128,
        yield_key(t1, a1) as u128 != price_key(t2, a2) as u128,
        t1 != t2 || a1 != a2 ==> price_key(t1, a1) as u128 != price_key(t2, a2) as u128,
        t1 != t2 || a1 != a2 ==> yield_key(t1, a1) as u128 != yield_key(t2, a2) as u128,
{
    lemma_keys_in_range(t1, a1);
    lemma_keys_in_range(t2, a2);
    lemma_price_and_yield_keys_disjoint(t1, a1, t2, a2);
    lemma_price_and_yield_keys_disjoint(t2, a2, t1, a1);
    if price_key(t1, a1) == price_key(t2, a2) {
        lemma_price_key_injective(t1, a1, t2, a2);
    }
}

/// Every key fits in 128 bits.
pub proof fn lemma_keys_in_range(timestamp: u64, asset: u8)
    ensures
        0 <= price_key(timestamp, asset) < yield_key(timestamp, asset) <= u128::MAX,
{
    assert(0 <= timestamp * 0x1_0000_0000_0000_0000 + asset && timestamp
        * 0x1_0000_0000_0000_0000 + asset + 256 <= 0xffff_ffff_ffff_ffff_ffff_ffff_ffff_ffff)
        by (nonlinear_arith)
        requires
            0 <= timestamp <= 0xffff_ffff_ffff_ffff,
            0 <= asset < 256,
    ;
}

} // verus!
