use core::marker::PhantomData;
use vstd::prelude::*;

use crate::cost::{op_weight, weight_of, Operation};
use crate::db::{rocks_db_spec, DbWeight};
use crate::weight::Weight;

verus! {

/// A storage backend's unit costs, bound once per runtime configuration.
pub trait StorageCostOracle {
    /// The unit costs that `unit_costs` returns.
    spec fn costs() -> DbWeight;

    /// The cost of one storage read and of one storage write.
    fn unit_costs() -> (r: DbWeight)
        ensures
            r == Self::costs(),
    ;
}

/// The default RocksDB backend: 25 µs per read, 100 µs per write.
pub struct RocksDbWeight;

impl StorageCostOracle for RocksDbWeight {
    open spec fn costs() -> DbWeight {
        rocks_db_spec()
    }

    fn unit_costs() -> (r: DbWeight) {
        DbWeight::rocks_db()
    }
}

/// Weight functions of the refungible pallet, one per extrinsic.
///
/// Every implementation prices the same coefficients; only the unit costs of
/// storage access differ between them.
pub trait WeightInfo {
    /// The unit costs this provider prices storage access with.
    spec fn db_costs() -> DbWeight;

    /// Creating one item.
    fn create_item() -> (r: Weight)
        ensures
            r == op_weight(Operation::CreateItem, Self::db_costs(), 0),
    ;

    /// Creating `b` items in one call.
    fn create_multiple_items(b: u32) -> (r: Weight)
        ensures
            r == op_weight(Operation::CreateMultipleItems, Self::db_costs(), b as Weight),
    ;

    /// Burning part of an owner's pieces of an item.
    fn burn_item_partial() -> (r: Weight)
        ensures
            r == op_weight(Operation::BurnItemPartial, Self::db_costs(), 0),
    ;

    /// Burning the last pieces of an item.
    fn burn_item_fully() -> (r: Weight)
        ensures
            r == op_weight(Operation::BurnItemFully, Self::db_costs(), 0),
    ;

    /// A transfer between two existing holders.
    fn transfer_normal() -> (r: Weight)
        ensures
            r == op_weight(Operation::TransferNormal, Self::db_costs(), 0),
    ;

    /// A transfer that makes the receiver a new holder.
    fn transfer_creating() -> (r: Weight)
        ensures
            r == op_weight(Operation::TransferCreating, Self::db_costs(), 0),
    ;

    /// A transfer that leaves the sender holding nothing.
    fn transfer_removing() -> (r: Weight)
        ensures
            r == op_weight(Operation::TransferRemoving, Self::db_costs(), 0),
    ;

    /// A transfer that both creates and removes a holder.
    fn transfer_creating_removing() -> (r: Weight)
        ensures
            r == op_weight(Operation::TransferCreatingRemoving, Self::db_costs(), 0),
    ;

    /// Approving an allowance.
    fn approve() -> (r: Weight)
        ensures
            r == op_weight(Operation::Approve, Self::db_costs(), 0),
    ;

    /// A transfer on behalf of an owner between existing holders.
    fn transfer_from_normal() -> (r: Weight)
        ensures
            r == op_weight(Operation::TransferFromNormal, Self::db_costs(), 0),
    ;

    /// A transfer on behalf of an owner that creates a holder.
    fn transfer_from_creating() -> (r: Weight)
        ensures
            r == op_weight(Operation::TransferFromCreating, Self::db_costs(), 0),
    ;

    /// A transfer on behalf of an owner that removes a holder.
    fn transfer_from_removing() -> (r: Weight)
        ensures
            r == op_weight(Operation::TransferFromRemoving, Self::db_costs(), 0),
    ;

    /// A transfer on behalf of an owner that creates and removes a holder.
    fn transfer_from_creating_removing() -> (r: Weight)
        ensures
            r == op_weight(Operation::TransferFromCreatingRemoving, Self::db_costs(), 0),
    ;

    /// Setting `b` bytes of variable metadata; the size does not change the cost.
    fn set_variable_metadata(b: u32) -> (r: Weight)
        ensures
            r == op_weight(Operation::SetVariableMetadata, Self::db_costs(), b as Weight),
    ;
}

/// Weights priced with the unit costs of the runtime's storage backend `T`.
pub struct SubstrateWeight<T>(pub PhantomData<T>);

impl<T: StorageCostOracle> WeightInfo for SubstrateWeight<T> {
    open spec fn db_costs() -> DbWeight {
        T::costs()
    }

    fn create_item() -> (r: Weight) {
        weight_of(Operation::CreateItem, T::unit_costs(), 0)
    }

    fn create_multiple_items(b: u32) -> (r: Weight) {
        weight_of(Operation::CreateMultipleItems, T::unit_costs(), b as Weight)
    }

    fn burn_item_partial() -> (r: Weight) {
        weight_of(Operation::BurnItemPartial, T::unit_costs(), 0)
    }

    fn burn_item_fully() -> (r: Weight) {
        weight_of(Operation::BurnItemFully, T::unit_costs(), 0)
    }

    fn transfer_normal() -> (r: Weight) {
        weight_of(Operation::TransferNormal, T::unit_costs(), 0)
    }

    fn transfer_creating() -> (r: Weight) {
        weight_of(Operation::TransferCreating, T::unit_costs(), 0)
    }

    fn transfer_removing() -> (r: Weight) {
        weight_of(Operation::TransferRemoving, T::unit_costs(), 0)
    }

    fn transfer_creating_removing() -> (r: Weight) {
        weight_of(Operation::TransferCreatingRemoving, T::unit_costs(), 0)
    }

    fn approve() -> (r: Weight) {
        weight_of(Operation::Approve, T::unit_costs(), 0)
    }

    fn transfer_from_normal() -> (r: Weight) {
        weight_of(Operation::TransferFromNormal, T::unit_costs(), 0)
    }

    fn transfer_from_creating() -> (r: Weight) {
        weight_of(Operation::TransferFromCreating, T::unit_costs(), 0)
    }

    fn transfer_from_removing() -> (r: Weight) {
        weight_of(Operation::TransferFromRemoving, T::unit_costs(), 0)
    }

    fn transfer_from_creating_removing() -> (r: Weight) {
        weight_of(Operation::TransferFromCreatingRemoving, T::unit_costs(), 0)
    }

    fn set_variable_metadata(b: u32) -> (r: Weight) {
        weight_of(Operation::SetVariableMetadata, T::unit_costs(), b as Weight)
    }
}

/// The fallback provider, priced with the RocksDB unit costs; usable where no
/// runtime is bound.
impl WeightInfo for () {
    open spec fn db_costs() -> DbWeight {
        rocks_db_spec()
    }

    fn create_item() -> (r: Weight) {
        weight_of(Operation::CreateItem, DbWeight::rocks_db(), 0)
    }

    fn create_multiple_items(b: u32) -> (r: Weight) {
        weight_of(Operation::CreateMultipleItems, DbWeight::rocks_db(), b as Weight)
    }

    fn burn_item_partial() -> (r: Weight) {
        weight_of(Operation::BurnItemPartial, DbWeight::rocks_db(), 0)
    }

    fn burn_item_fully() -> (r: Weight) {
        weight_of(Operation::BurnItemFully, DbWeight::rocks_db(), 0)
    }

    fn transfer_normal() -> (r: Weight) {
        weight_of(Operation::TransferNormal, DbWeight::rocks_db(), 0)
    }

    fn transfer_creating() -> (r: Weight) {
        weight_of(Operation::TransferCreating, DbWeight::rocks_db(), 0)
    }

    fn transfer_removing() -> (r: Weight) {
        weight_of(Operation::TransferRemoving, DbWeight::rocks_db(), 0)
    }

    fn transfer_creating_removing() -> (r: Weight) {
        weight_of(Operation::TransferCreatingRemoving, DbWeight::rocks_db(), 0)
    }

    fn approve() -> (r: Weight) {
        weight_of(Operation::Approve, DbWeight::rocks_db(), 0)
    }

    fn transfer_from_normal() -> (r: Weight) {
        weight_of(Operation::TransferFromNormal, DbWeight::rocks_db(), 0)
    }

    fn transfer_from_creating() -> (r: Weight) {
        weight_of(Operation::TransferFromCreating, DbWeight::rocks_db(), 0)
    }

    fn transfer_from_removing() -> (r: Weight) {
        weight_of(Operation::TransferFromRemoving, DbWeight::rocks_db(), 0)
    }

    fn transfer_from_creating_removing() -> (r: Weight) {
        weight_of(Operation::TransferFromCreatingRemoving, DbWeight::rocks_db(), 0)
    }

    fn set_variable_metadata(b: u32) -> (r: Weight) {
        weight_of(Operation::SetVariableMetadata, DbWeight::rocks_db(), b as Weight)
    }
}

} // verus!
