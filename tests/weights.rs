use refungible_weights::{
    evaluate, saturating_add, saturating_mul, weight_of, CostCoefficients, DbWeight, Operation,
    RocksDbWeight, StorageCostOracle, SubstrateWeight, WeightInfo, ROCKS_DB_READ, ROCKS_DB_WRITE,
};

const FIXED: [(Operation, u64, u64, u64); 13] = [
    (Operation::CreateItem, 18_681_000, 2, 6),
    (Operation::BurnItemPartial, 21_591_000, 3, 4),
    (Operation::BurnItemFully, 29_257_000, 4, 6),
    (Operation::TransferNormal, 17_733_000, 2, 2),
    (Operation::TransferCreating, 20_943_000, 3, 4),
    (Operation::TransferRemoving, 22_406_000, 3, 4),
    (Operation::TransferCreatingRemoving, 24_762_000, 4, 6),
    (Operation::Approve, 14_109_000, 1, 1),
    (Operation::TransferFromNormal, 25_348_000, 3, 3),
    (Operation::TransferFromCreating, 28_647_000, 4, 5),
    (Operation::TransferFromRemoving, 30_472_000, 4, 5),
    (Operation::TransferFromCreatingRemoving, 32_362_000, 5, 7),
    (Operation::SetVariableMetadata, 6_801_000, 1, 1),
];

#[test]
fn reference_unit_costs() {
    let db = RocksDbWeight::unit_costs();
    assert_eq!(db, DbWeight { read: 25_000_000, write: 100_000_000 });
    assert_eq!(DbWeight::rocks_db(), DbWeight { read: ROCKS_DB_READ, write: ROCKS_DB_WRITE });
}

#[test]
fn storage_access_costs_scale_with_count() {
    let db = DbWeight { read: 7, write: 11 };
    assert_eq!(db.reads(3), 21);
    assert_eq!(db.writes(3), 33);
    assert_eq!(db.reads(0), 0);
    let huge = DbWeight { read: u64::MAX, write: u64::MAX / 2 + 1 };
    assert_eq!(huge.reads(2), u64::MAX);
    assert_eq!(huge.writes(2), u64::MAX);
}

#[test]
fn saturating_arithmetic_clamps() {
    assert_eq!(saturating_add(2, 3), 5);
    assert_eq!(saturating_add(u64::MAX, 1), u64::MAX);
    assert_eq!(saturating_mul(6, 7), 42);
    assert_eq!(saturating_mul(u64::MAX / 2, 3), u64::MAX);
    assert_eq!(saturating_mul(0, u64::MAX), 0);
}

#[test]
fn fallback_fixed_cost_weights() {
    assert_eq!(<() as WeightInfo>::create_item(), 668_681_000);
    assert_eq!(<() as WeightInfo>::burn_item_partial(), 496_591_000);
    assert_eq!(<() as WeightInfo>::burn_item_fully(), 729_257_000);
    assert_eq!(<() as WeightInfo>::transfer_normal(), 267_733_000);
    assert_eq!(<() as WeightInfo>::transfer_creating(), 495_943_000);
    assert_eq!(<() as WeightInfo>::transfer_removing(), 497_406_000);
    assert_eq!(<() as WeightInfo>::transfer_creating_removing(), 724_762_000);
    assert_eq!(<() as WeightInfo>::approve(), 139_109_000);
    assert_eq!(<() as WeightInfo>::transfer_from_normal(), 400_348_000);
    assert_eq!(<() as WeightInfo>::transfer_from_creating(), 628_647_000);
    assert_eq!(<() as WeightInfo>::transfer_from_removing(), 630_472_000);
    assert_eq!(<() as WeightInfo>::transfer_from_creating_removing(), 857_362_000);
    assert_eq!(<() as WeightInfo>::set_variable_metadata(0), 131_801_000);
}

#[test]
fn fixed_cost_is_base_plus_priced_accesses() {
    let db = DbWeight::rocks_db();
    for (op, base, reads, writes) in FIXED {
        let expected = base + reads * db.read + writes * db.write;
        assert_eq!(weight_of(op, db, 0), expected);
        assert_eq!(weight_of(op, db, 1_000), expected);
        let c = op.coefficients();
        assert_eq!((c.base_time, c.reads, c.writes), (base, reads, writes));
        assert_eq!((c.per_unit_time, c.per_unit_writes), (0, 0));
    }
}

#[test]
fn metadata_weight_ignores_size() {
    assert_eq!(<() as WeightInfo>::set_variable_metadata(0), 131_801_000);
    assert_eq!(<() as WeightInfo>::set_variable_metadata(4096), 131_801_000);
    assert_eq!(<() as WeightInfo>::set_variable_metadata(u32::MAX), 131_801_000);
}

#[test]
fn batch_creation_without_items() {
    let w = <() as WeightInfo>::create_multiple_items(0);
    assert_eq!(w, 13_869_000 + 2 * ROCKS_DB_READ + 2 * ROCKS_DB_WRITE);
    assert_eq!(w, 263_869_000);
}

#[test]
fn batch_creation_of_four_items() {
    let w = <() as WeightInfo>::create_multiple_items(4);
    let writes_per_item = Operation::CreateMultipleItems.coefficients().per_unit_writes;
    assert_eq!(writes_per_item, 4);
    assert_eq!(
        w,
        13_869_000 + 4 * 5_611_000 + 2 * ROCKS_DB_READ + (2 + 4 * writes_per_item) * ROCKS_DB_WRITE
    );
    assert_eq!(w, 1_886_313_000);
}

#[test]
fn batch_creation_grows_by_constant_step() {
    let step = 5_611_000 + 4 * ROCKS_DB_WRITE;
    let mut prev = <() as WeightInfo>::create_multiple_items(0);
    for n in 1..50u32 {
        let w = <() as WeightInfo>::create_multiple_items(n);
        assert_eq!(w - prev, step);
        prev = w;
    }
    assert_eq!(<() as WeightInfo>::create_multiple_items(1), 669_480_000);
}

#[test]
fn batch_creation_at_largest_size() {
    assert_eq!(
        <() as WeightInfo>::create_multiple_items(u32::MAX),
        1_742_085_979_756_114_000
    );
}

#[test]
fn expensive_backend_saturates_at_ceiling() {
    let db = DbWeight { read: 1, write: 1 << 40 };
    let c = Operation::CreateMultipleItems.coefficients();
    assert_eq!(evaluate(c, db, u32::MAX as u64), u64::MAX);
    assert_eq!(weight_of(Operation::CreateMultipleItems, db, u64::MAX), u64::MAX);
    let max = DbWeight { read: u64::MAX, write: u64::MAX };
    for (op, _, _, _) in FIXED {
        assert_eq!(weight_of(op, max, 0), u64::MAX);
    }
}

#[test]
fn saturating_formula_matches_unclamped_sum_below_ceiling() {
    let c = CostCoefficients {
        base_time: 10,
        per_unit_time: 3,
        reads: 2,
        writes: 5,
        per_unit_writes: 7,
    };
    let db = DbWeight { read: 100, write: 1_000 };
    assert_eq!(evaluate(c, db, 0), 10 + 200 + 5_000);
    assert_eq!(evaluate(c, db, 2), 10 + 6 + 200 + 5_000 + 14_000);
}

#[test]
fn repeated_calls_are_identical() {
    for n in [0u32, 1, 17, u32::MAX] {
        assert_eq!(
            <() as WeightInfo>::create_multiple_items(n),
            <() as WeightInfo>::create_multiple_items(n)
        );
    }
    assert_eq!(<() as WeightInfo>::approve(), <() as WeightInfo>::approve());
}

#[test]
fn calibrated_provider_with_reference_backend_matches_fallback() {
    type Calibrated = SubstrateWeight<RocksDbWeight>;
    assert_eq!(Calibrated::create_item(), <() as WeightInfo>::create_item());
    assert_eq!(Calibrated::burn_item_partial(), <() as WeightInfo>::burn_item_partial());
    assert_eq!(Calibrated::burn_item_fully(), <() as WeightInfo>::burn_item_fully());
    assert_eq!(Calibrated::transfer_normal(), <() as WeightInfo>::transfer_normal());
    assert_eq!(Calibrated::transfer_creating(), <() as WeightInfo>::transfer_creating());
    assert_eq!(Calibrated::transfer_removing(), <() as WeightInfo>::transfer_removing());
    assert_eq!(
        Calibrated::transfer_creating_removing(),
        <() as WeightInfo>::transfer_creating_removing()
    );
    assert_eq!(Calibrated::approve(), <() as WeightInfo>::approve());
    assert_eq!(Calibrated::transfer_from_normal(), <() as WeightInfo>::transfer_from_normal());
    assert_eq!(Calibrated::transfer_from_creating(), <() as WeightInfo>::transfer_from_creating());
    assert_eq!(Calibrated::transfer_from_removing(), <() as WeightInfo>::transfer_from_removing());
    assert_eq!(
        Calibrated::transfer_from_creating_removing(),
        <() as WeightInfo>::transfer_from_creating_removing()
    );
    for n in [0u32, 4, 1_000, u32::MAX] {
        assert_eq!(
            Calibrated::create_multiple_items(n),
            <() as WeightInfo>::create_multiple_items(n)
        );
        assert_eq!(
            Calibrated::set_variable_metadata(n),
            <() as WeightInfo>::set_variable_metadata(n)
        );
    }
}

#[test]
fn providers_differ_only_in_unit_costs() {
    let other = DbWeight { read: 8_000_000, write: 50_000_000 };
    let reference = DbWeight::rocks_db();
    let c = Operation::TransferFromCreating.coefficients();
    let w_other = weight_of(Operation::TransferFromCreating, other, 0);
    let w_ref = weight_of(Operation::TransferFromCreating, reference, 0);
    assert_eq!(w_other, c.base_time + c.reads * other.read + c.writes * other.write);
    assert_eq!(w_ref, <() as WeightInfo>::transfer_from_creating());
    assert_eq!(w_ref - w_other, c.reads * (25_000_000 - 8_000_000) + c.writes * 50_000_000);
}
