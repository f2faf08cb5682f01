use ens::App;
use ens::ComponentTicks;
use ens::Res;
use ens::ResMut;
use ens::ResourceValue;
use ens::Tick;
use ens::Ticks;
use ens::TicksMut;
use ens::Time;
use ens::TimePlugin;
use ens::TimeUpdateStrategy;
use ens::time_system;

fn run_time_system(time: &mut Time, strategy: TimeUpdateStrategy) {
    let mut time_cells = ComponentTicks::new(Tick::new(1));
    let strategy_cells = ComponentTicks::new(Tick::new(1));
    time_system(
        ResMut {
            value: time,
            ticks: TicksMut::from_tick_cells(&mut time_cells, Tick::new(1), Tick::new(2)),
        },
        Res {
            value: &strategy,
            ticks: Ticks::from_tick_cells(&strategy_cells, Tick::new(1), Tick::new(2)),
        },
    );
    assert_eq!(time_cells.changed.get(), 2);
}

#[test]
fn manual_duration_advances_clock() {
    let mut time = Time::default();
    run_time_system(&mut time, TimeUpdateStrategy::ManualDurationNanos(250));
    assert_eq!(time.elapsed_nanos, 250);
    assert_eq!(time.delta_nanos, 250);
    run_time_system(&mut time, TimeUpdateStrategy::ManualDurationNanos(250));
    assert_eq!(time.elapsed_nanos, 500);
}

#[test]
fn manual_instant_moves_clock() {
    let mut time = Time::default();
    run_time_system(&mut time, TimeUpdateStrategy::ManualInstantNanos(800));
    assert_eq!(time.elapsed_nanos, 800);
    assert_eq!(time.delta_nanos, 800);
    run_time_system(&mut time, TimeUpdateStrategy::ManualInstantNanos(1000));
    assert_eq!(time.elapsed_nanos, 1000);
    assert_eq!(time.delta_nanos, 200);
}

#[test]
fn automatic_leaves_clock_to_the_host() {
    let mut time = Time {
        elapsed_nanos: 7,
        delta_nanos: 3,
    };
    run_time_system(&mut time, TimeUpdateStrategy::Automatic);
    assert_eq!(time.elapsed_nanos, 7);
    assert_eq!(time.delta_nanos, 3);
}

#[test]
fn time_plugin_advances_through_update() {
    let mut app = App::new();
    app.add_plugins(&TimePlugin);
    app.insert_resource(ResourceValue::TimeUpdateStrategy(
        TimeUpdateStrategy::ManualDurationNanos(16),
    ));
    app.update();
    app.update();
    let (time, _) = app.world.time.unwrap();
    assert_eq!(time.elapsed_nanos, 32);
    assert_eq!(time.delta_nanos, 16);
}
