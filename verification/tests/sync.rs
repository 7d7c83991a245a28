use std::time::{Duration, Instant};

use latches::sync::{timed_decision, timed_round, Latch, TimedRound};
use latches::WaitTimeoutResult;

fn wait(latch: &Latch) {
    if latch.wait_start() {
        return;
    }
    while !latch.wait_step() {}
}

fn wait_timeout(latch: &Latch, dur: Duration) -> WaitTimeoutResult<()> {
    match latch.wait_timeout_start() {
        None => WaitTimeoutResult::Reached,
        Some(start) => loop {
            if let Some(r) = latch.wait_timeout_step(&start, dur) {
                break r;
            }
        },
    }
}

#[test]
fn sync_counts_down() {
    let latch = Latch::new(3);

    latch.count_down();
    assert_eq!(latch.try_wait(), Err(2));
    latch.arrive(0);
    assert_eq!(latch.count(), 2);
    latch.arrive(5);
    assert_eq!(latch.count(), 0);
    latch.count_down();
    assert_eq!(latch.try_wait(), Ok(()));
    wait(&latch);
}

#[test]
fn sync_wait_timeout_times_out() {
    let latch = Latch::new(1);
    let start = Instant::now();

    assert!(wait_timeout(&latch, Duration::from_millis(10)).is_timed_out());
    assert!(start.elapsed() >= Duration::from_millis(10));
}

#[test]
fn sync_wait_timeout_reached() {
    let latch = Latch::new(1);

    latch.count_down();
    assert!(wait_timeout(&latch, Duration::from_secs(10)).is_reached());
    assert!(wait_timeout(&latch, Duration::ZERO).is_reached());
}

#[test]
fn timed_round_decides() {
    let d = Duration::from_millis(5);

    assert!(matches!(timed_round(0, None), TimedRound::Finished(WaitTimeoutResult::Reached)));
    assert!(matches!(timed_round(0, Some(d)), TimedRound::Finished(WaitTimeoutResult::Reached)));
    assert!(matches!(timed_round(3, None), TimedRound::Finished(WaitTimeoutResult::TimedOut(()))));
    assert!(matches!(timed_round(3, Some(d)), TimedRound::Block(x) if x == d));
}

#[test]
fn sync_wait_step_reached() {
    let latch = Latch::new(1);

    assert!(!latch.wait_start());
    latch.count_down();
    assert!(latch.wait_step());
}

#[test]
fn timed_decision_measures_time_left() {
    let dur = Duration::from_millis(50);

    assert!(matches!(
        timed_decision(2, dur, Duration::from_millis(20)),
        TimedRound::Block(d) if d == Duration::from_millis(30)
    ));
    assert!(matches!(
        timed_decision(2, dur, Duration::from_millis(80)),
        TimedRound::Finished(WaitTimeoutResult::TimedOut(()))
    ));
    assert!(matches!(
        timed_decision(0, dur, Duration::from_millis(80)),
        TimedRound::Finished(WaitTimeoutResult::Reached)
    ));
}
