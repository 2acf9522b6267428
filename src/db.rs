use frame_support::traits::Get;
use frame_support::weights::constants::RocksDbWeight as FrameRocksDbWeight;
use frame_support::weights::RuntimeDbWeight;
use vstd::prelude::*;

use crate::weight::{sat_mul, Weight};

verus! {

/// Unit costs of one storage read and one storage write.
#[derive(Clone, Copy, Debug, PartialEq, Eq, Structural)]
pub struct DbWeight {
    pub read: Weight,
    pub write: Weight,
}

/// Cost of one read on the default RocksDB backend.
pub const ROCKS_DB_READ: Weight = 25_000_000;

/// Cost of one write on the default RocksDB backend.
pub const ROCKS_DB_WRITE: Weight = 100_000_000;

/// The unit costs of the default RocksDB backend.
pub open spec fn rocks_db_spec() -> DbWeight {
    DbWeight { read: ROCKS_DB_READ, write: ROCKS_DB_WRITE }
}

/// Relies on `RuntimeDbWeight::reads`: the read cost multiplied by the count,
/// saturating, as the time part of the weight.
#[verifier::external_body]
fn runtime_db_reads(read: Weight, write: Weight, count: Weight) -> (r: Weight)
    ensures
        r == sat_mul(read as int, count as int),
{
    RuntimeDbWeight { read, write }.reads(count).ref_time()
}

/// Relies on `RuntimeDbWeight::writes`: the write cost multiplied by the count,
/// saturating, as the time part of the weight.
#[verifier::external_body]
fn runtime_db_writes(read: Weight, write: Weight, count: Weight) -> (r: Weight)
    ensures
        r == sat_mul(write as int, count as int),
{
    RuntimeDbWeight { read, write }.writes(count).ref_time()
}

/// Relies on frame_support's `RocksDbWeight` constant: 25 µs per read and
/// 100 µs per write, in weight units of one picosecond.
#[verifier::external_body]
fn frame_rocks_db_weight() -> (r: DbWeight)
    ensures
        r == rocks_db_spec(),
{
    let w = FrameRocksDbWeight::get();
    DbWeight { read: w.read, write: w.write }
}

impl DbWeight {
    /// The unit costs of the default RocksDB backend.
    pub fn rocks_db() -> (r: DbWeight)
        ensures
            r == rocks_db_spec(),
    {
        frame_rocks_db_weight()
    }

    /// Weight of `count` storage reads.
    pub fn reads(self, count: Weight) -> (r: Weight)
        ensures
            r == sat_mul(self.read as int, count as int),
    {
        runtime_db_reads(self.read, self.write, count)
    }

    /// Weight of `count` storage writes.
    pub fn writes(self, count: Weight) -> (r: Weight)
        ensures
            r == sat_mul(self.write as int, count as int),
    {
        runtime_db_writes(self.read, self.write, count)
    }
}

} // verus!
