//! Closest-aircraft selection.
//!
//! Distances are compared by integer keys derived from the bit patterns of
//! the 64-bit floating-point distances, ordered as IEEE 754 `totalOrder`
//! (what `f64::total_cmp` compares); the selection keeps the first of
//! equally close aircraft.

use vstd::prelude::*;

verus! {

/// The position of the first smallest key, or `None` for no keys.
pub fn closest_index(keys: &[i64]) -> (r: Option<usize>)
    ensures
        keys@.len() == 0 <==> r is None,
        r matches Some(i) ==> {
            &&& i < keys@.len()
            &&& forall|j: int| 0 <= j < keys@.len() ==> keys@[i as int] <= #[trigger] keys@[j]
            &&& forall|j: int| 0 <= j < i ==> keys@[i as int] < #[trigger] keys@[j]
        },
{
    if keys.len() == 0 {
        return None;
    }
    let mut best: usize = 0;
    let n = keys.len();
    for i in 1..n
        invariant
            n == keys@.len(),
            best < i,
            forall|j: int| 0 <= j < i ==> keys@[best as int] <= #[trigger] keys@[j],
            forall|j: int| 0 <= j < best ==> keys@[best as int] < #[trigger] keys@[j],
    {
        if keys[i] < keys[best] {
            best = i;
        }
    }
    Some(best)
}

/// The key of a 64-bit float bit pattern in IEEE 754 total order: patterns
/// with the sign bit clear keep their value, patterns with it set become
/// negative with their remaining bits reversed, so that larger magnitudes
/// of negative numbers come first.
pub open spec fn total_order_key(bits: u64) -> int {
    if bits < 0x8000_0000_0000_0000u64 {
        bits as int
    } else {
        -1 - (bits - 0x8000_0000_0000_0000u64)
    }
}

/// The total-order key of a 64-bit float's bit pattern (the integer that
/// `f64::total_cmp` compares: the bits as `i64`, with the low 63 bits
/// flipped when the sign bit is set).
pub fn order_key(bits: u64) -> (k: i64)
    ensures
        k == total_order_key(bits),
{
    if bits < 0x8000_0000_0000_0000u64 {
        bits as i64
    } else {
        let magnitude: u64 = bits - 0x8000_0000_0000_0000u64;
        -1 - (magnitude as i64)
    }
}

/// Keys order as total order does: among patterns with the sign bit clear
/// (non-negative numbers, distances among them) by their bits, among
/// patterns with it set in reverse, and every one with the sign set before
/// every one without.
pub proof fn lemma_order_key_monotone(a: u64, b: u64)
    ensures
        a < b && b < 0x8000_0000_0000_0000u64 ==> total_order_key(a) < total_order_key(b),
        0x8000_0000_0000_0000u64 <= a && a < b ==> total_order_key(a) > total_order_key(b),
        a >= 0x8000_0000_0000_0000u64 && b < 0x8000_0000_0000_0000u64 ==> total_order_key(a)
            < total_order_key(b),
        a == b <==> total_order_key(a) == total_order_key(b),
{
}

} // verus!
