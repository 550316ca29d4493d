use clipwatch::throttle::{Throttle, THROTTLE_MS};

#[test]
fn first_notification_is_accepted() {
    let mut t = Throttle::new();
    assert!(t.check_throttle(1000));
    assert_eq!(t.last_accepted, Some(1000));
}

#[test]
fn burst_within_window_is_suppressed() {
    let mut t = Throttle::new();
    assert!(t.check_throttle(1000));
    assert!(!t.check_throttle(1001));
    assert!(!t.check_throttle(1250));
    assert!(!t.check_throttle(1499));
    // the first timestamp of the burst stays recorded
    assert_eq!(t.last_accepted, Some(1000));
}

#[test]
fn next_window_is_accepted_again() {
    let mut t = Throttle::new();
    assert!(t.check_throttle(1000));
    assert!(t.check_throttle(1000 + THROTTLE_MS));
    assert_eq!(t.last_accepted, Some(1500));
}

#[test]
fn suppressed_notification_does_not_extend_the_window() {
    let mut t = Throttle::new();
    assert!(t.check_throttle(1000));
    assert!(!t.check_throttle(1400));
    // measured from the accepted one at 1000, not from the suppressed 1400
    assert!(t.check_throttle(1500));
}

#[test]
fn burst_within_one_window_accepts_at_most_one() {
    let times = [2000u64, 2000, 2100, 2250, 2499, 2050];
    let mut t = Throttle::new();
    let mut accepted = 0;
    for now in times {
        if t.check_throttle(now) {
            accepted += 1;
        }
    }
    assert_eq!(accepted, 1);
}

#[test]
fn out_of_order_timestamp_is_suppressed() {
    let mut t = Throttle::new();
    assert!(t.check_throttle(1000));
    // an earlier timestamp never counts as a full window elapsed
    assert!(!t.check_throttle(400));
    assert_eq!(t.last_accepted, Some(1000));
}
