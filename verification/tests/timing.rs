use mpv_presence::timing::compute_end_timestamp;

#[test]
fn zero_offset_gives_the_clock_itself() {
    assert_eq!(compute_end_timestamp(1000, 0), 1000);
    assert_eq!(compute_end_timestamp(0, 0), 0);
    assert_eq!(compute_end_timestamp(1_700_000_000, 0), 1_700_000_000);
}

#[test]
fn offset_is_added_to_the_clock() {
    assert_eq!(compute_end_timestamp(1000, 125), 1125);
    assert_eq!(compute_end_timestamp(1_700_000_000, 3600), 1_700_003_600);
    assert_eq!(compute_end_timestamp(0, 1), 1);
}

#[test]
fn negative_and_zero_results_are_not_clamped() {
    assert_eq!(compute_end_timestamp(1000, -1), 999);
    assert_eq!(compute_end_timestamp(1000, -1000), 0);
    assert_eq!(compute_end_timestamp(1000, -2000), -1000);
    assert_eq!(compute_end_timestamp(-5, 2), -3);
}

#[test]
fn sums_at_the_rim_of_the_range() {
    assert_eq!(compute_end_timestamp(i64::MAX, 0), i64::MAX);
    assert_eq!(compute_end_timestamp(i64::MAX - 1, 1), i64::MAX);
    assert_eq!(compute_end_timestamp(i64::MIN, 0), i64::MIN);
    assert_eq!(compute_end_timestamp(i64::MIN + 1, -1), i64::MIN);
    assert_eq!(compute_end_timestamp(i64::MAX, i64::MIN), -1);
}
