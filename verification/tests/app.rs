use ens::App;
use ens::BuildAction;
use ens::FrameCountPlugin;
use ens::Main;
use ens::Plugin;
use ens::PluginsState;
use ens::ResourceKind;
use ens::RunMode;
use ens::RunnerKind;
use ens::ScheduleLabel;
use ens::Startup;
use ens::SystemAction;
use ens::TaskPoolPlugin;
use ens::Update;

struct PluginA;

impl Plugin for PluginA {
    fn key() -> u64 {
        101
    }

    fn name(&self) -> String {
        "PluginA".to_string()
    }

    fn is_unique(&self) -> bool {
        true
    }

    fn build_action(&self) -> BuildAction {
        BuildAction::Nothing
    }
}

struct PluginB;

impl Plugin for PluginB {
    fn key() -> u64 {
        102
    }

    fn name(&self) -> String {
        "PluginB".to_string()
    }

    fn is_unique(&self) -> bool {
        true
    }

    fn build_action(&self) -> BuildAction {
        BuildAction::Nothing
    }
}

struct PluginC<T>(T);

impl Plugin for PluginC<u32> {
    fn key() -> u64 {
        103
    }

    fn name(&self) -> String {
        "PluginC<u32>".to_string()
    }

    fn is_unique(&self) -> bool {
        true
    }

    fn build_action(&self) -> BuildAction {
        BuildAction::Nothing
    }
}

impl Plugin for PluginC<bool> {
    fn key() -> u64 {
        104
    }

    fn name(&self) -> String {
        "PluginC<bool>".to_string()
    }

    fn is_unique(&self) -> bool {
        true
    }

    fn build_action(&self) -> BuildAction {
        BuildAction::Nothing
    }
}

struct PluginD;

impl Plugin for PluginD {
    fn key() -> u64 {
        105
    }

    fn name(&self) -> String {
        "PluginD".to_string()
    }

    fn is_unique(&self) -> bool {
        false
    }

    fn build_action(&self) -> BuildAction {
        BuildAction::Nothing
    }
}

#[test]
fn can_add_two_plugins() {
    let mut app = App::new();
    app.add_plugins(&PluginA);
    app.add_plugins(&PluginB);
}

#[test]
fn can_add_twice_the_same_plugin_with_different_type_param() {
    let mut app = App::new();
    app.add_plugins(&PluginC(0u32));
    app.add_plugins(&PluginC(true));
}

#[test]
fn can_add_twice_the_same_plugin_not_unique() {
    let mut app = App::new();
    app.add_plugins(&PluginD);
    app.add_plugins(&PluginD);
}

#[test]
fn add_systems_should_create_schedule_if_it_does_not_exist() {
    let mut app = App::new();
    app.init_resource(ResourceKind::FrameCount);
    app.add_systems(&Startup, SystemAction::UpdateFrameCount);
    app.add_systems(&Startup, SystemAction::UpdateFrameCount);

    app.world.run_schedule(Startup.intern());
    assert_eq!(app.world.frame_count.unwrap().0 .0, 2);
}

#[test]
fn add_systems_should_create_schedule_if_it_does_not_exist2() {
    let mut app = App::new();
    app.add_systems(&Startup, SystemAction::UpdateFrameCount);
    app.add_systems(&Startup, SystemAction::UpdateFrameCount);
    app.init_resource(ResourceKind::FrameCount);

    app.world.run_schedule(Startup.intern());
    assert_eq!(app.world.frame_count.unwrap().0 .0, 2);
}

#[test]
fn new_app_has_main_schedule() {
    let app = App::new();
    assert_eq!(app.world.schedules.entries.len(), 1);
    let main = &app.world.schedules.entries[0];
    assert_eq!(main.label.key, Main.intern().key);
    assert_eq!(main.systems, vec![SystemAction::RunMain]);
    assert!(app.world.main_schedule_order.is_some());
    assert_eq!(app.plugins_state(), PluginsState::Ready);
}

#[test]
fn is_plugin_added_sees_registry() {
    let mut app = App::new();
    assert!(!app.is_plugin_added::<PluginA>());
    app.add_plugins(&PluginA);
    assert!(app.is_plugin_added::<PluginA>());
    assert!(!app.is_plugin_added::<PluginB>());
}

#[test]
fn add_event_registers_once() {
    let mut app = App::new();
    struct Custom;
    impl ens::Event for Custom {
        fn key() -> u64 {
            77
        }
    }
    let before = app.world.event_keys.len();
    app.add_event::<Custom>();
    app.add_event::<Custom>();
    assert_eq!(app.world.event_keys.len(), before + 1);
}

#[test]
fn finish_and_cleanup_move_plugin_state() {
    let mut app = App::new();
    assert_eq!(app.plugins_state(), PluginsState::Ready);
    app.finish();
    assert_eq!(app.plugins_state(), PluginsState::Finished);
    app.cleanup();
    assert_eq!(app.plugins_state(), PluginsState::Cleaned);
}

#[test]
fn run_leaves_an_empty_app() {
    let mut app = App::new();
    app.add_plugins(&TaskPoolPlugin::default());
    app.add_plugins(&FrameCountPlugin);
    app.set_runner(RunnerKind::Schedule(RunMode::Once));
    app.run();
    assert!(app.plugin_registry.is_empty());
    assert_eq!(app.plugins_state(), PluginsState::Ready);
    assert_eq!(app.runner, RunnerKind::RunOnce);
}

#[test]
fn ignore_ambiguity_lands_in_schedule() {
    let mut app = App::new();
    app.ignore_ambiguity(&Update, 8, 9);
    let update = app.get_schedule(&Update).unwrap();
    assert_eq!(update.ignored_ambiguities, vec![(8, 9)]);
}

#[test]
fn configure_sets_lands_in_schedule() {
    let mut app = App::new();
    app.configure_sets(&Update, 42);
    let update = app.get_schedule(&Update).unwrap();
    assert_eq!(update.configured_sets, vec![42]);
}
