use vstd::prelude::*;

use crate::cost::{clamp, coefficients_spec, exact_cost, formula, is_fixed_cost, op_weight};
use crate::db::{rocks_db_spec, DbWeight};
use crate::provider::{StorageCostOracle, SubstrateWeight, WeightInfo};
use crate::weight::{sat_add, sat_mul, Weight};

verus! {

proof fn lemma_sat_add_clamped(x: int, y: int)
    requires
        x >= 0,
        y >= 0,
    ensures
        sat_add(clamp(x), clamp(y)) == clamp(x + y),
{
}

proof fn lemma_sat_mul_clamped(w: int, p: int)
    requires
        w >= 0,
        p >= 0,
    ensures
        sat_mul(w, clamp(p)) == clamp(w * p),
{
    if p > u64::MAX && w >= 1 {
        assert(w * p >= p) by (nonlinear_arith)
            requires w >= 1, p >= 0;
        assert(w * (u64::MAX as int) >= u64::MAX) by (nonlinear_arith)
            requires w >= 1;
    } else if p > u64::MAX {
        assert(w == 0);
        assert(w * p == 0);
    }
}

/// The step-by-step saturating evaluation equals the exact affine cost,
/// clamped once to `u64::MAX`: saturation never wraps and never loses
/// anything below the ceiling.
pub proof fn lemma_formula_is_clamped_exact(c: crate::cost::CostCoefficients, db: DbWeight, n: Weight)
    ensures
        formula(c, db, n) == clamp(exact_cost(c, db, n as int)),
{
    let a = c.base_time as int;
    let b = c.per_unit_time * n;
    let r = db.read * c.reads;
    let w = db.write * c.writes;
    let p = c.per_unit_writes * n;
    let e = db.write * p;
    assert(b >= 0 && r >= 0 && w >= 0 && p >= 0 && e >= 0) by (nonlinear_arith)
        requires
            b == c.per_unit_time * n,
            r == db.read * c.reads,
            w == db.write * c.writes,
            p == c.per_unit_writes * n,
            e == db.write * p,
            c.per_unit_time >= 0, n >= 0, db.read >= 0, c.reads >= 0,
            db.write >= 0, c.writes >= 0, c.per_unit_writes >= 0;
    lemma_sat_mul_clamped(db.write as int, p);
    assert(clamp(a) == a);
    lemma_sat_add_clamped(a, b);
    lemma_sat_add_clamped(a + b, r);
    lemma_sat_add_clamped(a + b + r, w);
    lemma_sat_add_clamped(a + b + r + w, e);
}

/// A fixed-cost operation weighs exactly `base_time + reads * read_cost +
/// writes * write_cost`, whatever the size parameter, when that sum fits.
pub proof fn lemma_fixed_cost_weight(op: crate::cost::Operation, db: DbWeight, n: Weight)
    requires
        is_fixed_cost(op),
        coefficients_spec(op).base_time + coefficients_spec(op).reads * db.read
            + coefficients_spec(op).writes * db.write <= u64::MAX,
    ensures
        op_weight(op, db, n) == coefficients_spec(op).base_time + coefficients_spec(op).reads
            * db.read + coefficients_spec(op).writes * db.write,
{
    let c = coefficients_spec(op);
    lemma_formula_is_clamped_exact(c, db, n);
    assert(db.read * c.reads == c.reads * db.read) by (nonlinear_arith);
    assert(db.write * c.writes == c.writes * db.write) by (nonlinear_arith);
    assert(c.per_unit_time * n == 0 && db.write * (c.per_unit_writes * n) == 0) by (nonlinear_arith)
        requires c.per_unit_time == 0, c.per_unit_writes == 0;
}

/// Under the RocksDB unit costs no fixed-cost operation saturates: each weighs
/// exactly `base_time + reads * 25_000_000 + writes * 100_000_000`.
pub proof fn lemma_reference_fixed_cost_weight(op: crate::cost::Operation, n: Weight)
    requires
        is_fixed_cost(op),
    ensures
        op_weight(op, rocks_db_spec(), n) == coefficients_spec(op).base_time
            + coefficients_spec(op).reads * 25_000_000 + coefficients_spec(op).writes * 100_000_000,
{
    lemma_fixed_cost_weight(op, rocks_db_spec(), n);
}

/// Each unit of the size parameter adds the per-unit time and the per-unit
/// writes priced at the write cost, as long as the result stays below the
/// ceiling.
pub proof fn lemma_size_step(op: crate::cost::Operation, db: DbWeight, n: Weight)
    requires
        n < u64::MAX,
        exact_cost(coefficients_spec(op), db, n + 1) <= u64::MAX,
    ensures
        op_weight(op, db, (n + 1) as Weight) - op_weight(op, db, n) == coefficients_spec(op).per_unit_time
            + db.write * coefficients_spec(op).per_unit_writes,
{
    let c = coefficients_spec(op);
    let m = (n + 1) as Weight;
    lemma_formula_is_clamped_exact(c, db, n);
    lemma_formula_is_clamped_exact(c, db, m);
    assert(exact_cost(c, db, m as int) - exact_cost(c, db, n as int) == c.per_unit_time + db.write
        * c.per_unit_writes) by (nonlinear_arith)
        requires m == n + 1;
    assert(exact_cost(c, db, n as int) <= exact_cost(c, db, m as int)) by (nonlinear_arith)
        requires
            m == n + 1,
            c.per_unit_time >= 0, db.write >= 0, c.per_unit_writes >= 0;
}

/// The weight never decreases as the size parameter grows.
pub proof fn lemma_weight_monotone(op: crate::cost::Operation, db: DbWeight, n: Weight, m: Weight)
    requires
        n <= m,
    ensures
        op_weight(op, db, n) <= op_weight(op, db, m),
{
    let c = coefficients_spec(op);
    lemma_formula_is_clamped_exact(c, db, n);
    lemma_formula_is_clamped_exact(c, db, m);
    assert(exact_cost(c, db, n as int) <= exact_cost(c, db, m as int)) by (nonlinear_arith)
        requires
            n <= m,
            c.per_unit_time >= 0, db.write >= 0, c.per_unit_writes >= 0;
}

/// When the exact cost exceeds the ceiling, the weight is `u64::MAX`: it
/// clamps instead of wrapping to a smaller value.
pub proof fn lemma_saturates_at_ceiling(op: crate::cost::Operation, db: DbWeight, n: Weight)
    requires
        exact_cost(coefficients_spec(op), db, n as int) > u64::MAX,
    ensures
        op_weight(op, db, n) == u64::MAX,
{
    lemma_formula_is_clamped_exact(coefficients_spec(op), db, n);
}

/// The calibrated provider and the fallback provider price every operation
/// with the same coefficients: each weight is the formula of the operation's
/// coefficients under the provider's own unit costs, so the two agree
/// whenever the backend's unit costs are the RocksDB ones.
pub proof fn lemma_providers_differ_only_in_costs<T: StorageCostOracle>(
    op: crate::cost::Operation,
    n: Weight,
)
    ensures
        op_weight(op, <SubstrateWeight<T> as WeightInfo>::db_costs(), n) == formula(
            coefficients_spec(op),
            T::costs(),
            n,
        ),
        op_weight(op, <() as WeightInfo>::db_costs(), n) == formula(
            coefficients_spec(op),
            rocks_db_spec(),
            n,
        ),
        T::costs() == rocks_db_spec() ==> op_weight(
            op,
            <SubstrateWeight<T> as WeightInfo>::db_costs(),
            n,
        ) == op_weight(op, <() as WeightInfo>::db_costs(), n),
{
}

} // verus!
