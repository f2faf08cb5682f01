use ens::CHECK_TICK_THRESHOLD;
use ens::ComponentTicks;
use ens::MAX_CHANGE_AGE;
use ens::Tick;
use ens::World;

#[test]
fn change_expiration() {
    let mut world = World::new();

    // component added: 1, changed: 1
    let component = world.spawn_tracked();

    let change_detected_system = world.register_system();
    let change_expired_system = world.register_system();

    // The spawn is detected since it happened after the system "last ran".
    let (last_run, this_run) = world.system_run_window(change_detected_system);
    assert!(world.component_ticks_at(component).is_changed(last_run, this_run));

    // world: 1 + MAX_CHANGE_AGE
    let aged = world.change_tick().get().wrapping_add(MAX_CHANGE_AGE);
    world.change_tick = Tick::new(aged);

    // Both the system and the component appeared `MAX_CHANGE_AGE` ticks ago;
    // ages are clamped there, so the change is no longer reported.
    let (last_run, this_run) = world.system_run_window(change_expired_system);
    assert!(!world.component_ticks_at(component).is_changed(last_run, this_run));
}

#[test]
fn change_tick_wraparound() {
    let mut world = World::new();
    world.last_change_tick = Tick::new(u32::MAX);
    world.change_tick = Tick::new(0);

    // component added: 0, changed: 0
    let component = world.spawn_tracked();

    world.increment_change_tick();

    // The world stays ahead as long as changes cannot age past `u32::MAX`,
    // so the wrapping difference stays positive and the wrap is harmless.
    let ticks = world.component_ticks_at(component);
    assert!(ticks.is_changed(world.last_change_tick(), world.change_tick()));
}

#[test]
fn change_tick_scan() {
    let mut world = World::new();

    // component added: 1, changed: 1
    let component = world.spawn_tracked();

    // A lot happens; the component is now older than `MAX_CHANGE_AGE`.
    let advanced = world
        .change_tick()
        .get()
        .wrapping_add(MAX_CHANGE_AGE)
        .wrapping_add(CHECK_TICK_THRESHOLD);
    world.change_tick = Tick::new(advanced);
    let change_tick = world.change_tick();

    let tracker = world.component_ticks_at(component);
    let ticks_since_insert = change_tick.relative_to(tracker.added).get();
    let ticks_since_change = change_tick.relative_to(tracker.changed).get();
    assert!(ticks_since_insert > MAX_CHANGE_AGE);
    assert!(ticks_since_change > MAX_CHANGE_AGE);

    // Scan change ticks and clamp those at risk of overflow.
    world.check_change_ticks();

    let tracker = world.component_ticks_at(component);
    let ticks_since_insert = change_tick.relative_to(tracker.added).get();
    let ticks_since_change = change_tick.relative_to(tracker.changed).get();
    assert_eq!(ticks_since_insert, MAX_CHANGE_AGE);
    assert_eq!(ticks_since_change, MAX_CHANGE_AGE);
}

#[test]
fn fresh_insert_is_added_and_changed() {
    let pair = ComponentTicks::new(Tick::new(10));
    assert!(pair.is_added(Tick::new(9), Tick::new(11)));
    assert!(pair.is_changed(Tick::new(9), Tick::new(11)));
}

#[test]
fn closed_window_reports_nothing() {
    let pair = ComponentTicks::new(Tick::new(10));
    // The observer's last run is at the insertion tick itself.
    assert!(!pair.is_added(Tick::new(10), Tick::new(11)));
    assert!(!pair.is_changed(Tick::new(10), Tick::new(11)));
    // The observer's last run postdates the insertion.
    assert!(!pair.is_added(Tick::new(11), Tick::new(12)));
    assert!(!pair.is_changed(Tick::new(11), Tick::new(12)));
}

#[test]
fn set_changed_restamps_pair() {
    let mut pair = ComponentTicks::new(Tick::new(10));
    assert!(!pair.is_changed(Tick::new(10), Tick::new(12)));
    pair.set_changed(Tick::new(12));
    assert!(pair.is_changed(Tick::new(10), Tick::new(12)));
    assert!(!pair.is_added(Tick::new(10), Tick::new(12)));
    assert_eq!(pair.last_changed_tick().get(), 12);
    assert_eq!(pair.added_tick().get(), 10);
}
