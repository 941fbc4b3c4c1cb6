use libzfs::{DatasetType, DatasetTypeMask, ZPoolState};

#[test]
fn pool_states_by_native_number() {
    assert_eq!(ZPoolState::from_raw(0), Some(ZPoolState::Active));
    assert_eq!(ZPoolState::from_raw(1), Some(ZPoolState::Exported));
    assert_eq!(ZPoolState::from_raw(2), Some(ZPoolState::Destroyed));
    assert_eq!(ZPoolState::from_raw(3), Some(ZPoolState::Spare));
    assert_eq!(ZPoolState::from_raw(4), Some(ZPoolState::L2Cache));
    assert_eq!(ZPoolState::from_raw(5), Some(ZPoolState::Uninitialized));
    assert_eq!(ZPoolState::from_raw(6), Some(ZPoolState::Unavailable));
    assert_eq!(ZPoolState::from_raw(7), Some(ZPoolState::PotentiallyActive));
    assert_eq!(ZPoolState::from_raw(8), None);
    assert_eq!(ZPoolState::from_raw(u32::MAX), None);
}

#[test]
fn pool_state_round_trip() {
    for raw in 0u32..8 {
        let state = ZPoolState::from(raw);
        assert_eq!(u32::from(state), raw);
    }
    assert_eq!(ZPoolState::from(6), ZPoolState::Unavailable);
}

#[test]
fn dataset_types_by_native_number() {
    assert_eq!(DatasetType::from_raw(1), Some(DatasetType::Filesystem));
    assert_eq!(DatasetType::from_raw(2), Some(DatasetType::Snapshot));
    assert_eq!(DatasetType::from_raw(4), Some(DatasetType::Volume));
    assert_eq!(DatasetType::from_raw(8), Some(DatasetType::Pool));
    assert_eq!(DatasetType::from_raw(16), Some(DatasetType::Bookmark));
    assert_eq!(DatasetType::from_raw(0), None);
    assert_eq!(DatasetType::from_raw(3), None);
    assert_eq!(DatasetType::from_raw(32), None);
}

#[test]
fn dataset_type_round_trip() {
    for raw in [1u32, 2, 4, 8, 16] {
        let kind = DatasetType::from(raw);
        assert_eq!(u32::from(kind), raw);
    }
    assert_eq!(DatasetType::from(16), DatasetType::Bookmark);
}

#[test]
fn mask_of_all_types_is_saturated() {
    let all = DatasetTypeMask::all();
    assert_eq!(all.raw(), u32::MAX);
    assert_eq!(all, DatasetTypeMask(0xffff_ffff));
    for kind in [
        DatasetType::Filesystem,
        DatasetType::Snapshot,
        DatasetType::Volume,
        DatasetType::Pool,
        DatasetType::Bookmark,
    ] {
        assert!(all.contains(kind));
    }
}

#[test]
fn mask_of_one_type() {
    let mask = DatasetTypeMask::from(DatasetType::Volume);
    assert_eq!(mask.raw(), 4);
    assert!(mask.contains(DatasetType::Volume));
    assert!(!mask.contains(DatasetType::Filesystem));
    assert!(!mask.contains(DatasetType::Snapshot));
}

#[test]
fn masks_by_union() {
    let mask = DatasetType::Filesystem | DatasetType::Snapshot;
    assert_eq!(mask.raw(), 3);
    assert!(mask.contains(DatasetType::Filesystem));
    assert!(mask.contains(DatasetType::Snapshot));
    assert!(!mask.contains(DatasetType::Volume));
    let wider = mask | DatasetType::Bookmark;
    assert_eq!(wider.raw(), 19);
    assert!(wider.contains(DatasetType::Bookmark));
    assert!(wider.contains(DatasetType::Filesystem));
    assert!(!wider.contains(DatasetType::Pool));
    assert_eq!((DatasetType::Volume | DatasetType::Volume).raw(), 4);
}
