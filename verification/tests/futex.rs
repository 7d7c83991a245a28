use latches::futex::Latch;

/// Blocks until the latch reaches 0, one round at a time.
fn wait(latch: &Latch) {
    while !latch.wait_step() {}
}

#[test]
fn test_single_thread() {
    let latch = Latch::new(3);

    latch.count_down();
    latch.count_down();
    latch.count_down();

    wait(&latch);
    assert_eq!(latch.count(), 0);
}

#[test]
fn test_arrive() {
    let latch = Latch::new(3);

    latch.arrive(3);
    wait(&latch);

    assert_eq!(latch.count(), 0);
}

#[test]
fn test_arrive_zero() {
    let latch = Latch::new(2);

    latch.arrive(0);

    assert_eq!(latch.count(), 2);
}

#[test]
fn test_try_wait() {
    let latch = Latch::new(0);

    assert_eq!(latch.try_wait(), Ok(()));
}

#[test]
fn test_try_wait_err() {
    let latch = Latch::new(3);

    assert_eq!(latch.try_wait(), Err(3));
}

#[test]
fn test_more_arrive() {
    let latch = Latch::new(10);

    for _ in 0..4 {
        latch.arrive(3);
    }
    wait(&latch);

    assert_eq!(latch.count(), 0);
}

#[test]
fn test_debug() {
    let latch = Latch::new(3);
    let stringified = format!("{:?}", latch);

    assert!(stringified.contains("Latch"));
    assert!(stringified.contains('3'));
}

#[test]
fn futex_count_down_saturates_at_zero() {
    let latch = Latch::new(2);

    latch.count_down();
    assert_eq!(latch.count(), 1);
    latch.count_down();
    assert_eq!(latch.count(), 0);
    latch.count_down();
    assert_eq!(latch.count(), 0);
    assert_eq!(latch.try_wait(), Ok(()));
}

#[test]
fn futex_arrive_more_than_count() {
    let latch = Latch::new(5);

    latch.arrive(2);
    assert_eq!(latch.count(), 3);
    assert_eq!(latch.try_wait(), Err(3));
    latch.arrive(u32::MAX);
    assert_eq!(latch.count(), 0);
}

#[test]
fn futex_wait_after_decides_on_the_count_read() {
    let latch = Latch::new(3);

    assert!(latch.wait_after(0));
    // The counter holds 3, not 5, so the futex does not sleep.
    assert!(!latch.wait_after(5));
    latch.arrive(3);
    assert!(latch.wait_step());
}
