use vstd::prelude::*;

use crate::db::DbWeight;
use crate::weight::{sat_add, sat_mul, saturating_add, saturating_mul, Weight};

verus! {

/// The extrinsics of the refungible pallet that are charged a weight.
#[derive(Clone, Copy, Debug, PartialEq, Eq, Structural)]
pub enum Operation {
    CreateItem,
    CreateMultipleItems,
    BurnItemPartial,
    BurnItemFully,
    TransferNormal,
    TransferCreating,
    TransferRemoving,
    TransferCreatingRemoving,
    Approve,
    TransferFromNormal,
    TransferFromCreating,
    TransferFromRemoving,
    TransferFromCreatingRemoving,
    SetVariableMetadata,
}

/// Benchmarked cost coefficients of one operation.
///
/// Reads never scale with the size parameter; time and writes may.
#[derive(Clone, Copy, Debug, PartialEq, Eq, Structural)]
pub struct CostCoefficients {
    /// Fixed execution time.
    pub base_time: Weight,
    /// Execution time added per unit of the size parameter.
    pub per_unit_time: Weight,
    /// Fixed number of storage reads.
    pub reads: Weight,
    /// Fixed number of storage writes.
    pub writes: Weight,
    /// Storage writes added per unit of the size parameter.
    pub per_unit_writes: Weight,
}

/// A coefficient record with no per-unit terms.
pub open spec fn fixed(base_time: Weight, reads: Weight, writes: Weight) -> CostCoefficients {
    CostCoefficients { base_time, per_unit_time: 0, reads, writes, per_unit_writes: 0 }
}

/// The benchmarked coefficients of each operation.
pub open spec fn coefficients_spec(op: Operation) -> CostCoefficients {
    match op {
        Operation::CreateItem => fixed(18_681_000, 2, 6),
        Operation::CreateMultipleItems => CostCoefficients {
            base_time: 13_869_000,
            per_unit_time: 5_611_000,
            reads: 2,
            writes: 2,
            per_unit_writes: 4,
        },
        Operation::BurnItemPartial => fixed(21_591_000, 3, 4),
        Operation::BurnItemFully => fixed(29_257_000, 4, 6),
        Operation::TransferNormal => fixed(17_733_000, 2, 2),
        Operation::TransferCreating => fixed(20_943_000, 3, 4),
        Operation::TransferRemoving => fixed(22_406_000, 3, 4),
        Operation::TransferCreatingRemoving => fixed(24_762_000, 4, 6),
        Operation::Approve => fixed(14_109_000, 1, 1),
        Operation::TransferFromNormal => fixed(25_348_000, 3, 3),
        Operation::TransferFromCreating => fixed(28_647_000, 4, 5),
        Operation::TransferFromRemoving => fixed(30_472_000, 4, 5),
        Operation::TransferFromCreatingRemoving => fixed(32_362_000, 5, 7),
        Operation::SetVariableMetadata => fixed(6_801_000, 1, 1),
    }
}

/// An operation whose coefficients have no per-unit term.
pub open spec fn is_fixed_cost(op: Operation) -> bool {
    coefficients_spec(op).per_unit_time == 0 && coefficients_spec(op).per_unit_writes == 0
}

/// The weight as the original formula evaluates it, step by step with
/// saturating arithmetic: base time, per-unit time, fixed reads, fixed writes,
/// then per-unit writes.
pub open spec fn formula(c: CostCoefficients, db: DbWeight, n: Weight) -> int {
    let w1 = sat_add(c.base_time as int, sat_mul(c.per_unit_time as int, n as int));
    let w2 = sat_add(w1, sat_mul(db.read as int, c.reads as int));
    let w3 = sat_add(w2, sat_mul(db.write as int, c.writes as int));
    sat_add(w3, sat_mul(db.write as int, sat_mul(c.per_unit_writes as int, n as int)))
}

/// The weight of an operation with size parameter `n` under the given unit costs.
pub open spec fn op_weight(op: Operation, db: DbWeight, n: Weight) -> int {
    formula(coefficients_spec(op), db, n)
}

/// The unclamped affine cost of a coefficient record at size `n`.
pub open spec fn exact_cost(c: CostCoefficients, db: DbWeight, n: int) -> int {
    c.base_time + c.per_unit_time * n + db.read * c.reads + db.write * c.writes
        + db.write * (c.per_unit_writes * n)
}

/// `x` clamped to the largest weight.
pub open spec fn clamp(x: int) -> int {
    if x > u64::MAX { u64::MAX as int } else { x }
}

impl Operation {
    /// The benchmarked coefficients of this operation.
    pub fn coefficients(self) -> (c: CostCoefficients)
        ensures
            c == coefficients_spec(self),
    {
        match self {
            Operation::CreateItem => fixed_cost(18_681_000, 2, 6),
            Operation::CreateMultipleItems => CostCoefficients {
                base_time: 13_869_000,
                per_unit_time: 5_611_000,
                reads: 2,
                writes: 2,
                per_unit_writes: 4,
            },
            Operation::BurnItemPartial => fixed_cost(21_591_000, 3, 4),
            Operation::BurnItemFully => fixed_cost(29_257_000, 4, 6),
            Operation::TransferNormal => fixed_cost(17_733_000, 2, 2),
            Operation::TransferCreating => fixed_cost(20_943_000, 3, 4),
            Operation::TransferRemoving => fixed_cost(22_406_000, 3, 4),
            Operation::TransferCreatingRemoving => fixed_cost(24_762_000, 4, 6),
            Operation::Approve => fixed_cost(14_109_000, 1, 1),
            Operation::TransferFromNormal => fixed_cost(25_348_000, 3, 3),
            Operation::TransferFromCreating => fixed_cost(28_647_000, 4, 5),
            Operation::TransferFromRemoving => fixed_cost(30_472_000, 4, 5),
            Operation::TransferFromCreatingRemoving => fixed_cost(32_362_000, 5, 7),
            Operation::SetVariableMetadata => fixed_cost(6_801_000, 1, 1),
        }
    }
}

/// A coefficient record with no per-unit terms.
fn fixed_cost(base_time: Weight, reads: Weight, writes: Weight) -> (c: CostCoefficients)
    ensures
        c == fixed(base_time, reads, writes),
{
    CostCoefficients { base_time, per_unit_time: 0, reads, writes, per_unit_writes: 0 }
}

/// Evaluates the weight formula of a coefficient record.
pub fn evaluate(c: CostCoefficients, db: DbWeight, n: Weight) -> (r: Weight)
    ensures
        r == formula(c, db, n),
{
    let time = saturating_add(c.base_time, saturating_mul(c.per_unit_time, n));
    let with_reads = saturating_add(time, db.reads(c.reads));
    let with_writes = saturating_add(with_reads, db.writes(c.writes));
    saturating_add(with_writes, db.writes(saturating_mul(c.per_unit_writes, n)))
}

/// The weight of `op` with size parameter `n` under the unit costs `db`.
pub fn weight_of(op: Operation, db: DbWeight, n: Weight) -> (r: Weight)
    ensures
        r == op_weight(op, db, n),
{
    evaluate(op.coefficients(), db, n)
}

} // verus!
