use cube_arena::lifetime::{Lifetime, BULLET_DESPAWN_TIME};

#[test]
fn tick_gathers_time_below_the_duration() {
    let mut lifetime = Lifetime::new(BULLET_DESPAWN_TIME);
    assert!(!lifetime.tick(1_000_000_000));
    assert_eq!(lifetime.elapsed, 1_000_000_000);
    assert!(!lifetime.tick(1_999_999_999));
    assert_eq!(lifetime.elapsed, 2_999_999_999);
}

#[test]
fn tick_finishes_at_the_duration_exactly() {
    let mut lifetime = Lifetime { elapsed: 2_999_999_999, duration: BULLET_DESPAWN_TIME };
    assert!(lifetime.tick(1));
    assert_eq!(lifetime.elapsed, 3_000_000_000);
}

#[test]
fn tick_holds_the_elapsed_time_at_the_duration() {
    let mut lifetime = Lifetime::new(BULLET_DESPAWN_TIME);
    assert!(lifetime.tick(10_000_000_000));
    assert_eq!(lifetime.elapsed, BULLET_DESPAWN_TIME);
    assert_eq!(lifetime.duration, BULLET_DESPAWN_TIME);
}

#[test]
fn tick_takes_the_largest_spans() {
    let mut lifetime = Lifetime { elapsed: u64::MAX - 1, duration: u64::MAX };
    assert!(lifetime.tick(u64::MAX));
    assert_eq!(lifetime.elapsed, u64::MAX);
    let mut young = Lifetime { elapsed: 0, duration: u64::MAX };
    assert!(!young.tick(u64::MAX - 1));
    assert_eq!(young.elapsed, u64::MAX - 1);
}
