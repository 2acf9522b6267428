//! Weight formulas for the refungible token pallet's extrinsics.
//!
//! Every operation is charged a fixed base time, an optional per-unit time,
//! and a number of storage reads and writes priced by a storage cost oracle.
//! All arithmetic saturates at `u64::MAX`.

pub mod cost;
pub mod db;
pub mod laws;
pub mod provider;
pub mod weight;

pub use cost::{evaluate, weight_of, CostCoefficients, Operation};
pub use provider::{RocksDbWeight, StorageCostOracle, SubstrateWeight, WeightInfo};
pub use db::{DbWeight, ROCKS_DB_READ, ROCKS_DB_WRITE};
pub use weight::{saturating_add, saturating_mul, Weight};
