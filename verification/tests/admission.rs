use resize_server::limiter::TokenBucket;

#[test]
fn full_bucket_admits_up_to_budget() {
    let mut b = TokenBucket::new(3, 0);
    assert!(b.try_acquire(0));
    assert!(b.try_acquire(0));
    assert!(b.try_acquire(0));
    assert!(!b.try_acquire(0));
}

#[test]
fn burst_beyond_budget_is_refused() {
    let rate = 5u32;
    let burst = 12usize;
    let mut b = TokenBucket::new(rate, 0);
    let mut refused = 0usize;
    for _ in 0..burst {
        if !b.try_acquire(1) {
            refused += 1;
        }
    }
    assert!(refused >= burst - rate as usize);
    assert_eq!(refused, burst - rate as usize);
}

#[test]
fn tight_window_burst_is_refused_beyond_budget() {
    // rate 5: one token refills in 200 ms. Twelve arrivals 10 ms apart all
    // fit in a 110 ms window — faster than the refill interval — so no more
    // than the budget of 5 is admitted.
    let rate = 5u32;
    let burst = 12u64;
    let mut b = TokenBucket::new(rate, 0);
    let mut admitted = 0usize;
    for i in 0..burst {
        if b.try_acquire(i * 10) {
            admitted += 1;
        }
    }
    assert_eq!(admitted, rate as usize);
    assert!(burst as usize - admitted >= burst as usize - rate as usize);
}

#[test]
fn spaced_requests_are_never_refused() {
    let mut b = TokenBucket::new(2, 0);
    let mut t = 1000u64;
    for _ in 0..10 {
        assert!(b.try_acquire(t));
        t += 1000;
    }
}

#[test]
fn partial_refill_accumulates() {
    // rate 1: one token per second, i.e. one milli-token per millisecond.
    let mut b = TokenBucket::new(1, 0);
    assert!(b.try_acquire(0));
    assert!(!b.try_acquire(500));
    // 500 milli-tokens had accumulated by then; 500 more make a whole token.
    assert!(b.try_acquire(1000));
    assert!(!b.try_acquire(1001));
}

#[test]
fn refill_never_exceeds_capacity() {
    let mut b = TokenBucket::new(2, 0);
    // A long idle period refills to capacity, not beyond it.
    assert!(b.try_acquire(60_000));
    assert!(b.try_acquire(60_000));
    assert!(!b.try_acquire(60_000));
}
