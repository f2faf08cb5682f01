use ens::App;
use ens::AppError;
use ens::BuildAction;
use ens::DefaultPlugins;
use ens::MinimalPlugins;
use ens::NoopPluginGroup;
use ens::Plugin;
use ens::PluginGroup;
use ens::PluginGroupBuilder;

struct PluginA;

impl Plugin for PluginA {
    fn key() -> u64 {
        201
    }

    fn name(&self) -> String {
        "PluginA".to_string()
    }

    fn is_unique(&self) -> bool {
        true
    }

    fn build_action(&self) -> BuildAction {
        BuildAction::Nothing
    }
}

struct PluginB;

impl Plugin for PluginB {
    fn key() -> u64 {
        202
    }

    fn name(&self) -> String {
        "PluginB".to_string()
    }

    fn is_unique(&self) -> bool {
        true
    }

    fn build_action(&self) -> BuildAction {
        BuildAction::Nothing
    }
}

struct PluginC;

impl Plugin for PluginC {
    fn key() -> u64 {
        203
    }

    fn name(&self) -> String {
        "PluginC".to_string()
    }

    fn is_unique(&self) -> bool {
        true
    }

    fn build_action(&self) -> BuildAction {
        BuildAction::Nothing
    }
}

#[test]
fn basic_ordering() {
    let group = PluginGroupBuilder::start::<NoopPluginGroup>()
        .add(PluginA)
        .add(PluginB)
        .add(PluginC);

    assert_eq!(
        group.order,
        vec![
            <PluginA as Plugin>::key(),
            <PluginB as Plugin>::key(),
            <PluginC as Plugin>::key(),
        ]
    );
}

#[test]
fn add_after() {
    let group = PluginGroupBuilder::start::<NoopPluginGroup>()
        .add(PluginA)
        .add(PluginB)
        .add_after::<PluginA, PluginC>(PluginC);

    assert_eq!(
        group.order,
        vec![
            <PluginA as Plugin>::key(),
            <PluginC as Plugin>::key(),
            <PluginB as Plugin>::key(),
        ]
    );
}

#[test]
fn add_before() {
    let group = PluginGroupBuilder::start::<NoopPluginGroup>()
        .add(PluginA)
        .add(PluginB)
        .add_before::<PluginB, PluginC>(PluginC);

    assert_eq!(
        group.order,
        vec![
            <PluginA as Plugin>::key(),
            <PluginC as Plugin>::key(),
            <PluginB as Plugin>::key(),
        ]
    );
}

#[test]
fn readd() {
    let group = PluginGroupBuilder::start::<NoopPluginGroup>()
        .add(PluginA)
        .add(PluginB)
        .add(PluginC)
        .add(PluginB);

    assert_eq!(
        group.order,
        vec![
            <PluginA as Plugin>::key(),
            <PluginC as Plugin>::key(),
            <PluginB as Plugin>::key(),
        ]
    );
}

#[test]
fn readd_after() {
    let group = PluginGroupBuilder::start::<NoopPluginGroup>()
        .add(PluginA)
        .add(PluginB)
        .add(PluginC)
        .add_after::<PluginA, PluginC>(PluginC);

    assert_eq!(
        group.order,
        vec![
            <PluginA as Plugin>::key(),
            <PluginC as Plugin>::key(),
            <PluginB as Plugin>::key(),
        ]
    );
}

#[test]
fn readd_before() {
    let group = PluginGroupBuilder::start::<NoopPluginGroup>()
        .add(PluginA)
        .add(PluginB)
        .add(PluginC)
        .add_before::<PluginB, PluginC>(PluginC);

    assert_eq!(
        group.order,
        vec![
            <PluginA as Plugin>::key(),
            <PluginC as Plugin>::key(),
            <PluginB as Plugin>::key(),
        ]
    );
}

#[test]
fn add_basic_subgroup() {
    let group_a = PluginGroupBuilder::start::<NoopPluginGroup>()
        .add(PluginA)
        .add(PluginB);

    let group_b = PluginGroupBuilder::start::<NoopPluginGroup>()
        .add_group(group_a)
        .add(PluginC);

    assert_eq!(
        group_b.order,
        vec![
            <PluginA as Plugin>::key(),
            <PluginB as Plugin>::key(),
            <PluginC as Plugin>::key(),
        ]
    );
}

#[test]
fn add_conflicting_subgroup() {
    let group_a = PluginGroupBuilder::start::<NoopPluginGroup>()
        .add(PluginA)
        .add(PluginC);

    let group_b = PluginGroupBuilder::start::<NoopPluginGroup>()
        .add(PluginB)
        .add(PluginC);

    let group = PluginGroupBuilder::start::<NoopPluginGroup>()
        .add_group(group_a)
        .add_group(group_b);

    assert_eq!(
        group.order,
        vec![
            <PluginA as Plugin>::key(),
            <PluginB as Plugin>::key(),
            <PluginC as Plugin>::key(),
        ]
    );
}

#[test]
fn disable_and_enable_flip_the_flag() {
    let group = PluginGroupBuilder::start::<NoopPluginGroup>()
        .add(PluginA)
        .add(PluginB)
        .disable::<PluginA>();
    let entry = group
        .plugins
        .iter()
        .find(|p| p.0 == <PluginA as Plugin>::key())
        .unwrap();
    assert!(!entry.1.enabled);

    let group = group.enable::<PluginA>();
    let entry = group
        .plugins
        .iter()
        .find(|p| p.0 == <PluginA as Plugin>::key())
        .unwrap();
    assert!(entry.1.enabled);
}

#[test]
fn finish_registers_enabled_plugins() {
    let mut app = App::new();
    let group = PluginGroupBuilder::start::<NoopPluginGroup>()
        .add(PluginA)
        .add(PluginB)
        .disable::<PluginB>();
    let before = app.plugin_registry.len();
    assert!(group.finish(&mut app).is_ok());
    assert_eq!(app.plugin_registry.len(), before + 1);
    assert!(app.is_plugin_added::<PluginA>());
    assert!(!app.is_plugin_added::<PluginB>());
}

#[test]
fn finish_reports_duplicates() {
    let mut app = App::new();
    app.add_plugins(&PluginA);
    let group = PluginGroupBuilder::start::<NoopPluginGroup>().add(PluginA);
    let result = group.finish(&mut app);
    match result {
        Err(AppError::DuplicatePlugin { plugin_name }) => {
            assert_eq!(plugin_name, "PluginA");
        }
        Ok(()) => panic!("a duplicate unique plugin must be refused"),
    }
}

#[test]
fn set_replaces_plugin_configuration() {
    let group = PluginGroupBuilder::start::<NoopPluginGroup>()
        .add(PluginA)
        .set(&PluginA);
    assert_eq!(group.order, vec![<PluginA as Plugin>::key()]);
    let entry = group
        .plugins
        .iter()
        .find(|p| p.0 == <PluginA as Plugin>::key())
        .unwrap();
    assert!(entry.1.enabled);
    assert_eq!(entry.1.descriptor.name, "PluginA");
}

#[test]
fn default_and_minimal_groups_order() {
    let default_group = DefaultPlugins.build();
    assert_eq!(
        default_group.order,
        vec![
            <ens::TaskPoolPlugin as Plugin>::key(),
            <ens::TimePlugin as Plugin>::key(),
            <ens::HierarchyPlugin as Plugin>::key(),
        ]
    );

    let minimal_group = MinimalPlugins.build();
    assert_eq!(
        minimal_group.order,
        vec![
            <ens::TaskPoolPlugin as Plugin>::key(),
            <ens::TimePlugin as Plugin>::key(),
            <ens::ScheduleRunnerPlugin as Plugin>::key(),
        ]
    );
}
