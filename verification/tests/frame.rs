use ens::App;
use ens::ComponentTicks;
use ens::FrameCount;
use ens::FrameCountPlugin;
use ens::ResMut;
use ens::TaskPoolPlugin;
use ens::Tick;
use ens::TicksMut;
use ens::update_frame_count;

#[test]
fn frame_counter_update() {
    let mut app = App::new();
    app.add_plugins(&TaskPoolPlugin::default());
    app.add_plugins(&FrameCountPlugin);
    app.update();

    let frame_count = app.world.frame_count.unwrap().0;
    assert_eq!(1, frame_count.0);
}

#[test]
fn update_frame_count_wraps() {
    let mut pair = ComponentTicks::new(Tick::new(1));
    let mut count = FrameCount(u32::MAX);
    update_frame_count(ResMut {
        value: &mut count,
        ticks: TicksMut::from_tick_cells(&mut pair, Tick::new(1), Tick::new(2)),
    });
    assert_eq!(count.0, 0);
    assert_eq!(pair.changed.get(), 2);
}

#[test]
fn frame_count_defaults_to_zero() {
    assert_eq!(FrameCount::default().0, 0);
}
