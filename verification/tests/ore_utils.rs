use ore_hq_client::ore_utils::get_cutoff;

#[test]
fn cutoff_is_what_is_left_of_the_minute() {
    assert_eq!(get_cutoff(1_000, 5, 1_010), 45);
    assert_eq!(get_cutoff(1_000, 0, 1_000), 60);
    assert_eq!(get_cutoff(1_000, 5, 1_100), -45);
    assert_eq!(get_cutoff(0, 0, 0), 60);
}

#[test]
fn cutoff_stays_in_range() {
    assert_eq!(get_cutoff(i64::MAX, 0, 0), i64::MAX);
    assert_eq!(get_cutoff(i64::MAX, 0, i64::MAX), 0);
    assert_eq!(get_cutoff(i64::MAX, 10, 0), i64::MAX - 10);
    assert_eq!(get_cutoff(i64::MIN, 100, 0), i64::MIN);
    assert_eq!(get_cutoff(i64::MIN, 0, 1), i64::MIN + 59);
    assert_eq!(get_cutoff(i64::MIN, 59, 2), i64::MIN);
    assert_eq!(get_cutoff(0, 0, i64::MIN), i64::MAX);
    assert_eq!(get_cutoff(-60, i64::MAX as u64, 2), i64::MIN);
}

#[test]
fn cutoff_reads_a_huge_buffer_as_negative() {
    // The buffer is taken bit for bit: all ones is minus one.
    assert_eq!(get_cutoff(0, u64::MAX, 0), 61);
    assert_eq!(get_cutoff(0, 1 << 63, 0), i64::MAX);
    assert_eq!(
        get_cutoff(0, u64::MAX, 0),
        0i64.saturating_add(60).saturating_sub(u64::MAX as i64).saturating_sub(0)
    );
}
