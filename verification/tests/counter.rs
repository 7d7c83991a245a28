use latches::counter::{countdown, countdown_u32, is_release, is_release_u32, wait_outcome, wait_outcome_u32};

#[test]
fn countdown_saturates_and_stops_at_zero() {
    assert_eq!(countdown(5, 2), Some(3));
    assert_eq!(countdown(5, 5), Some(0));
    assert_eq!(countdown(5, 9), Some(0));
    assert_eq!(countdown(5, 0), Some(5));
    assert_eq!(countdown(0, 3), None);
    assert_eq!(countdown_u32(7, 1), Some(6));
    assert_eq!(countdown_u32(1, u32::MAX), Some(0));
    assert_eq!(countdown_u32(0, 1), None);
}

#[test]
fn release_happens_on_the_transition_to_zero() {
    assert!(is_release(1, 1));
    assert!(is_release(3, 7));
    assert!(!is_release(3, 2));
    assert!(!is_release(0, 1));
    assert!(!is_release(4, 0));
    assert!(is_release_u32(2, 2));
    assert!(!is_release_u32(0, 0));
}

#[test]
fn history_releases_exactly_once() {
    // Arrivals 3, 0, 3, 3, 3 on a count of 10: one release, on the fourth.
    let mut count: usize = 10;
    let mut releases = 0;
    for n in [3, 0, 3, 3, 3] {
        if let Some(next) = countdown(count, n) {
            if is_release(count, n) {
                releases += 1;
            }
            count = next;
        }
    }
    assert_eq!(count, 0);
    assert_eq!(releases, 1);
}

#[test]
fn wait_outcomes() {
    assert_eq!(wait_outcome(0), Ok(()));
    assert_eq!(wait_outcome(4), Err(4));
    assert_eq!(wait_outcome_u32(0), Ok(()));
    assert_eq!(wait_outcome_u32(9), Err(9));
}
