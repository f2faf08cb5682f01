use ens::MAX_CHANGE_AGE;
use ens::Tick;

#[test]
fn relative_to_wraps() {
    assert_eq!(Tick::new(10).relative_to(Tick::new(3)).get(), 7);
    assert_eq!(Tick::new(3).relative_to(Tick::new(10)).get(), u32::MAX - 6);
    assert_eq!(Tick::new(0).relative_to(Tick::new(u32::MAX)).get(), 1);
}

#[test]
fn tick_get_set() {
    let mut t = Tick::new(5);
    assert_eq!(t.get(), 5);
    t.set(9);
    assert_eq!(t.get(), 9);
}

#[test]
fn is_newer_than_tracks_relative_age() {
    // Strictly younger than the reference point: newer.
    assert!(Tick::new(5).is_newer_than(Tick::new(3), Tick::new(10)));
    // As old as the reference point: not newer.
    assert!(!Tick::new(3).is_newer_than(Tick::new(3), Tick::new(10)));
    // Older than the reference point: not newer.
    assert!(!Tick::new(2).is_newer_than(Tick::new(3), Tick::new(10)));
    // Equal to the closing tick: newer, the upper bound is inclusive.
    assert!(Tick::new(10).is_newer_than(Tick::new(3), Tick::new(10)));
}

#[test]
fn is_newer_than_survives_wraparound() {
    // The same window, shifted to straddle the wrap at `u32::MAX`.
    let shift = u32::MAX - 6;
    let a = Tick::new(5u32.wrapping_add(shift));
    let b = Tick::new(3u32.wrapping_add(shift));
    let c = Tick::new(10u32.wrapping_add(shift));
    assert!(a.is_newer_than(b, c));
    assert!(!b.is_newer_than(b, c));
    assert!(c.is_newer_than(b, c));
}

#[test]
fn ages_clamp_at_max_change_age() {
    let this_run = Tick::new(MAX_CHANGE_AGE.wrapping_add(7));
    let stale = Tick::new(2);
    let event = Tick::new(5);
    // Both ages reach the clamp, so neither compares newer.
    assert!(!event.is_newer_than(stale, this_run));
}

#[test]
fn check_tick_clamps_and_reports() {
    let current = Tick::new(MAX_CHANGE_AGE.wrapping_add(10));
    let mut young = Tick::new(10);
    assert!(!young.check_tick(current));
    assert_eq!(young.get(), 10);

    let mut stale = Tick::new(5);
    assert!(stale.check_tick(current));
    assert_eq!(current.relative_to(stale).get(), MAX_CHANGE_AGE);
}

#[test]
fn check_tick_is_idempotent() {
    let current = Tick::new(MAX_CHANGE_AGE.wrapping_add(10));
    let mut stale = Tick::new(5);
    assert!(stale.check_tick(current));
    let once = stale;
    assert!(!stale.check_tick(current));
    assert_eq!(stale, once);
}
