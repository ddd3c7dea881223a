use ravioni::time::{Duration, Instant};

#[test]
fn nanoseconds_carry_into_seconds() {
    let duration = Duration::new(1, 2_500_000_000);
    assert_eq!(3, duration.as_secs());
    assert_eq!(500_000_000, duration.subsec_nanos());
}

#[test]
fn spans_do_not_get_negative() {
    let long = Duration::new(5, 100);
    let short = Duration::new(3, 200);
    assert_eq!(Duration::new(1, 999_999_900), long.saturating_sub(&short));
    assert_eq!(Duration::zero(), short.saturating_sub(&long));
    let early = Instant::at(short);
    let late = Instant::at(long);
    assert_eq!(Duration::new(1, 999_999_900), late.duration_since(&early));
    assert_eq!(Duration::zero(), early.duration_since(&late));
}
