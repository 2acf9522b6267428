use vstd::prelude::*;

verus! {

/// Numeric weight of an extrinsic: a count of weight units.
pub type Weight = u64;

/// `a + b`, clamped to `u64::MAX`.
pub open spec fn sat_add(a: int, b: int) -> int {
    if a + b > u64::MAX { u64::MAX as int } else { a + b }
}

/// `a * b`, clamped to `u64::MAX`.
pub open spec fn sat_mul(a: int, b: int) -> int {
    if a * b > u64::MAX { u64::MAX as int } else { a * b }
}

/// Saturating addition of two weights.
pub fn saturating_add(a: Weight, b: Weight) -> (r: Weight)
    ensures
        r == sat_add(a as int, b as int),
{
    a.saturating_add(b)
}

/// Saturating multiplication of two weights.
pub fn saturating_mul(a: Weight, b: Weight) -> (r: Weight)
    ensures
        r == sat_mul(a as int, b as int),
{
    match a.checked_mul(b) {
        Some(p) => p,
        None => u64::MAX,
    }
}

} // verus!
