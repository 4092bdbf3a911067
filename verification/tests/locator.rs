use gas_dispenser::errors::LocateError;
use gas_dispenser::locate::{requested_targets, select_records};
use gas_dispenser::range::{search_range, SearchRange};

#[test]
fn hinted_range_is_narrow_window() {
    let r = search_range(Some(100), None).unwrap();
    assert_eq!(r, SearchRange { start: 99, end: 101 });
    // The latest height is ignored when a hint is given.
    let r = search_range(Some(7), Some(12345)).unwrap();
    assert_eq!(r, SearchRange { start: 6, end: 8 });
}

#[test]
fn full_range_scans_from_genesis() {
    let r = search_range(None, Some(500)).unwrap();
    assert_eq!(r, SearchRange { start: 0, end: 500 });
}

#[test]
fn missing_latest_height_is_an_error() {
    assert_eq!(search_range(None, None), Err(LocateError::NoLatestHeight));
}

#[test]
fn targets_are_fee_then_amount() {
    assert_eq!(requested_targets(5, 100), vec![5, 100]);
}

#[test]
fn too_few_records_is_insufficient() {
    let none: Vec<(u32, &str)> = vec![];
    assert_eq!(
        select_records(none).unwrap_err(),
        LocateError::InsufficientRecords
    );
    let one: Vec<(u32, &str)> = vec![(9, "only")];
    assert_eq!(
        select_records(one).unwrap_err(),
        LocateError::InsufficientRecords
    );
}

#[test]
fn two_records_make_a_labeled_pair() {
    // Entry 0 satisfies the second requested target (the amount), entry 1
    // the first (the fee).
    let found: Vec<(u32, &str)> = vec![(3, "for-amount"), (8, "for-fee")];
    let pair = select_records(found).unwrap();
    assert_eq!(pair.amount_record, "for-amount");
    assert_eq!(pair.fee_record, "for-fee");
}

#[test]
fn extra_records_are_ignored() {
    let found: Vec<(u32, u64)> = vec![(0, 11), (1, 22), (2, 33)];
    let pair = select_records(found).unwrap();
    assert_eq!(pair.amount_record, 11);
    assert_eq!(pair.fee_record, 22);
}
