use hermes::clock::Timestamp;

#[test]
fn seconds_order_before_nanoseconds() {
    assert!(Timestamp::new(1, 999_999_999).is_before(&Timestamp::new(2, 0)));
    assert!(!Timestamp::new(2, 0).is_before(&Timestamp::new(1, 999_999_999)));
    assert!(Timestamp::new(-2, 5).is_before(&Timestamp::new(-1, 0)));
}

#[test]
fn nanoseconds_order_within_one_second() {
    assert!(Timestamp::new(7, 1).is_before(&Timestamp::new(7, 2)));
    assert!(!Timestamp::new(7, 2).is_before(&Timestamp::new(7, 1)));
    assert!(!Timestamp::new(7, 2).is_before(&Timestamp::new(7, 2)));
}

#[test]
fn latest_picks_the_later() {
    let early = Timestamp::new(3, 10);
    let late = Timestamp::new(3, 11);
    assert_eq!(late, early.latest(late));
    assert_eq!(late, late.latest(early));
    assert_eq!(late, late.latest(late));
}

#[test]
fn elapsed_is_strict_and_counts_nanoseconds() {
    let start = Timestamp::new(100, 500);
    assert!(!start.has_elapsed(&Timestamp::new(105, 500), 5_000_000_000));
    assert!(start.has_elapsed(&Timestamp::new(105, 501), 5_000_000_000));
    assert!(!start.has_elapsed(&Timestamp::new(105, 499), 5_000_000_000));
    assert!(start.has_elapsed(&Timestamp::new(106, 0), 5_000_000_000));
    assert!(!start.has_elapsed(&Timestamp::new(99, 0), 0));
    assert!(!start.has_elapsed(&start, 0));
    assert!(start.has_elapsed(&Timestamp::new(100, 501), 0));
}

#[test]
fn elapsed_holds_at_the_ends_of_the_range() {
    let first = Timestamp::new(i64::MIN, 0);
    let last = Timestamp::new(i64::MAX, u32::MAX);
    assert!(first.has_elapsed(&last, u64::MAX));
    assert!(!last.has_elapsed(&first, 0));
}

#[test]
fn now_does_not_run_backwards_by_a_day() {
    let first = Timestamp::now();
    let second = Timestamp::now();
    assert!(!first.has_elapsed(&second, 86_400_000_000_000));
    assert!(!second.has_elapsed(&first, 0) || second == first || second.is_before(&first));
    // The clock of this machine shows a time after the year 2001.
    assert!(Timestamp::new(1_000_000_000, 0).is_before(&first));
}
