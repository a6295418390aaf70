use diagram_shell::clock::{epoch_seconds, now_epoch};

#[test]
fn now_epoch_counts_seconds_since_1970() {
    let known = std::time::SystemTime::now()
        .duration_since(std::time::UNIX_EPOCH)
        .map(|elapsed| elapsed.as_secs())
        .unwrap_or(0);
    let read = now_epoch();
    assert!(read >= known);
    assert!(read - known <= 5);
    assert!(read > 1_600_000_000);
}

#[test]
fn now_epoch_does_not_run_backwards_within_a_moment() {
    let first = now_epoch();
    let second = now_epoch();
    assert!(second + 5 >= first);
}

#[test]
fn a_clock_before_the_epoch_reads_as_zero() {
    assert_eq!(epoch_seconds(None), 0);
    assert_eq!(epoch_seconds(Some(0)), 0);
    assert_eq!(epoch_seconds(Some(1_700_000_000)), 1_700_000_000);
    assert_eq!(epoch_seconds(Some(u64::MAX)), u64::MAX);
}
