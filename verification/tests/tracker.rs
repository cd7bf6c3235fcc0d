//! The round-trip-time tracker.

use keytimer::ping::PingPong;
use keytimer::time::now;

/// Drive a fresh tracker to an active probe with the given sequence.
fn tracker_active_at(seq_no: u32, start: u128) -> PingPong {
    let mut p = PingPong::new(0);
    let _ = p.close(0);
    for k in 1..=seq_no {
        let t: u128 = if k == seq_no { start } else { 0 };
        assert_eq!(p.next(t), Ok(k));
        if k != seq_no {
            let _ = p.close(0);
        }
    }
    p
}

#[test]
fn new_tracker_starts_active_at_zero() {
    let p = PingPong::new(100);
    assert_eq!(p.counter, 0);
    assert!(p.has_active());
}

#[test]
fn next_fails_while_active() {
    let mut p = PingPong::new(100);
    assert_eq!(p.next(200), Err(0));
    assert_eq!(p.counter, 0);
}

#[test]
fn next_succeeds_after_close() {
    let mut p = PingPong::new(100);
    assert_eq!(p.close(150), Err((0, 50)));
    assert!(!p.has_active());
    assert_eq!(p.next(200), Ok(1));
    assert!(p.has_active());
}

#[test]
fn next_never_succeeds_twice_in_a_row() {
    let mut p = PingPong::new(0);
    let _ = p.close(0);
    assert_eq!(p.next(10), Ok(1));
    assert_eq!(p.next(20), Err(1));
    assert_eq!(p.next(30), Err(1));
}

#[test]
fn finish_matching_sequence_yields_elapsed() {
    let mut p = tracker_active_at(4, 1000);
    assert_eq!(p.finish(4, 1250), Ok(250));
    assert!(!p.has_active());
    assert_eq!(p.counter, 4);
}

#[test]
fn finish_mismatched_sequence_fails_without_mutation() {
    let mut p = tracker_active_at(4, 1000);
    assert_eq!(p.finish(3, 1250), Err(Some(4)));
    assert_eq!(p.counter, 4);
    assert!(p.has_active());
    // The probe is still answerable afterwards.
    assert_eq!(p.finish(4, 1300), Ok(300));
}

#[test]
fn finish_with_no_probe_fails() {
    let mut p = PingPong::new(100);
    let _ = p.close(100);
    assert_eq!(p.finish(4, 200), Err(None));
    assert_eq!(p.counter, 0);
}

#[test]
fn close_abandons_probe_with_age() {
    let mut p = tracker_active_at(2, 500);
    assert_eq!(p.close(800), Err((2, 300)));
    assert!(!p.has_active());
    assert_eq!(p.close(900), Ok(()));
}

#[test]
fn elapsed_saturates_when_clock_moves_back() {
    let mut p = tracker_active_at(1, 1000);
    assert_eq!(p.finish(1, 900), Ok(0));
}

#[test]
fn clock_reads_after_epoch() {
    assert!(now() > 0);
}
