use ens::CHECK_TICK_THRESHOLD;
use ens::MAX_CHANGE_AGE;
use ens::ResourceKind;
use ens::ResourceValue;
use ens::Tick;
use ens::TimeUpdateStrategy;
use ens::World;

#[test]
fn increment_returns_new_value() {
    let mut world = World::new();
    assert_eq!(world.change_tick().get(), 1);
    let next = world.increment_change_tick();
    assert_eq!(next.get(), 2);
    assert_eq!(world.change_tick().get(), 2);
}

#[test]
fn increment_wraps_at_max() {
    let mut world = World::new();
    world.change_tick = Tick::new(u32::MAX);
    let next = world.increment_change_tick();
    assert_eq!(next.get(), 0);
}

#[test]
fn clear_trackers_closes_window() {
    let mut world = World::new();
    world.increment_change_tick();
    let before = world.change_tick();
    world.clear_trackers();
    assert_eq!(world.last_change_tick(), before);
    assert_eq!(world.change_tick().get(), before.get().wrapping_add(1));
}

#[test]
fn sweep_skips_below_threshold() {
    let mut world = World::new();
    let slot = world.spawn_tracked();
    world.change_tick = Tick::new(world.change_tick().get().wrapping_add(MAX_CHANGE_AGE));
    // The counter has not advanced a full threshold past the last pass,
    // so the stale tick stays put.
    world.last_check_tick = Tick::new(world.change_tick().get().wrapping_sub(CHECK_TICK_THRESHOLD - 1));
    let before = world.component_ticks_at(slot);
    world.check_change_ticks();
    assert_eq!(world.component_ticks_at(slot), before);
}

#[test]
fn sweep_covers_system_ticks() {
    let mut world = World::new();
    let system = world.register_system();
    // A fresh system's tick already sits a full tracked window in the
    // past, so one threshold of further aging pushes it over the limit.
    world.change_tick = Tick::new(world.change_tick().get().wrapping_add(CHECK_TICK_THRESHOLD));
    let current = world.change_tick();
    assert!(current.relative_to(world.system_ticks[system]).get() > MAX_CHANGE_AGE);
    world.check_change_ticks();
    assert_eq!(
        current.relative_to(world.system_ticks[system]).get(),
        MAX_CHANGE_AGE
    );
}

#[test]
fn sweep_is_idempotent() {
    let mut world = World::new();
    let slot = world.spawn_tracked();
    world.change_tick = Tick::new(
        world
            .change_tick()
            .get()
            .wrapping_add(MAX_CHANGE_AGE)
            .wrapping_add(CHECK_TICK_THRESHOLD),
    );
    world.check_change_ticks();
    let once = world.component_ticks_at(slot);
    world.last_check_tick = Tick::new(0);
    world.check_change_ticks();
    assert_eq!(world.component_ticks_at(slot), once);
}

#[test]
fn insert_resource_stamps_overwrites() {
    let mut world = World::new();
    world.insert_resource(ResourceValue::TimeUpdateStrategy(
        TimeUpdateStrategy::ManualDurationNanos(5),
    ));
    let (_, first_ticks) = world.time_update_strategy.unwrap();
    assert_eq!(first_ticks.added.get(), 1);
    assert_eq!(first_ticks.changed.get(), 1);

    world.increment_change_tick();
    world.insert_resource(ResourceValue::TimeUpdateStrategy(TimeUpdateStrategy::Automatic));
    let (value, ticks) = world.time_update_strategy.unwrap();
    assert_eq!(value, TimeUpdateStrategy::Automatic);
    assert_eq!(ticks.added.get(), 1, "an overwrite keeps the insertion tick");
    assert_eq!(ticks.changed.get(), 2, "an overwrite stamps the change");
}

#[test]
fn init_resource_leaves_occupied_slot() {
    let mut world = World::new();
    world.insert_resource(ResourceValue::TimeUpdateStrategy(
        TimeUpdateStrategy::ManualDurationNanos(5),
    ));
    world.init_resource(ResourceKind::TimeUpdateStrategy);
    let (value, _) = world.time_update_strategy.unwrap();
    assert_eq!(value, TimeUpdateStrategy::ManualDurationNanos(5));
}

#[test]
fn mark_component_changed_stamps_current_tick() {
    let mut world = World::new();
    let slot = world.spawn_tracked();
    world.increment_change_tick();
    world.mark_component_changed(slot);
    let ticks = world.component_ticks_at(slot);
    assert_eq!(ticks.added.get(), 1);
    assert_eq!(ticks.changed.get(), 2);
}
