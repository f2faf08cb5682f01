use ens::ExecutorKind;
use ens::Last;
use ens::LogLevel;
use ens::Main;
use ens::MainScheduleOrder;
use ens::PostUpdate;
use ens::PreUpdate;
use ens::Schedule;
use ens::ScheduleBuildSettings;
use ens::ScheduleLabel;
use ens::Schedules;
use ens::StateTransition;
use ens::SystemAction;
use ens::Update;

#[test]
fn schedules_insert_and_get() {
    let mut schedules = Schedules::new();
    assert!(!schedules.contains(Main.intern()));
    schedules.insert(Schedule::new(Main.intern()));
    assert!(schedules.contains(Main.intern()));
    let got = schedules.get(Main.intern()).unwrap();
    assert_eq!(got.label, Main.intern());
    assert!(got.systems.is_empty());
}

#[test]
fn schedules_insert_overwrites_same_label() {
    let mut schedules = Schedules::new();
    schedules.insert(Schedule::new(Main.intern()));
    let mut replacement = Schedule::new(Main.intern());
    replacement.add_systems(SystemAction::RunMain);
    schedules.insert(replacement);
    assert_eq!(schedules.entries.len(), 1);
    assert_eq!(
        schedules.get(Main.intern()).unwrap().systems,
        vec![SystemAction::RunMain]
    );
}

#[test]
fn schedule_records_configuration() {
    let mut schedule = Schedule::new(Update.intern());
    schedule.add_systems(SystemAction::TickTaskPools);
    schedule.configure_sets(4);
    schedule.ignore_ambiguity(4, 5);
    schedule.set_executor_kind(ExecutorKind::SingleThreaded);
    schedule.set_build_settings(ScheduleBuildSettings {
        ambiguity_detection: LogLevel::Error,
    });
    assert_eq!(schedule.systems, vec![SystemAction::TickTaskPools]);
    assert_eq!(schedule.configured_sets, vec![4]);
    assert_eq!(schedule.ignored_ambiguities, vec![(4, 5)]);
    assert_eq!(schedule.executor, ExecutorKind::SingleThreaded);
    assert_eq!(schedule.settings.ambiguity_detection, LogLevel::Error);
}

#[test]
fn default_order_lists_phases() {
    let order = MainScheduleOrder::default();
    assert_eq!(
        order.labels,
        vec![
            PreUpdate.intern(),
            StateTransition.intern(),
            Update.intern(),
            PostUpdate.intern(),
            Last.intern(),
        ]
    );
}

#[test]
fn insert_after_places_label() {
    let mut order = MainScheduleOrder::default();
    order.insert_after(&Update, &Main);
    assert_eq!(order.labels[3], Main.intern());
    assert_eq!(order.labels.len(), 6);
}

#[test]
fn insert_startup_after_places_label() {
    let mut order = MainScheduleOrder::default();
    order.insert_startup_after(&ens::PreStartup, &Main);
    assert_eq!(order.startup_labels[1], Main.intern());
    assert_eq!(order.startup_labels.len(), 4);
}

#[test]
fn labels_intern_distinctly() {
    let keys = [
        Main.intern().key,
        ens::PreStartup.intern().key,
        ens::Startup.intern().key,
        ens::PostStartup.intern().key,
        PreUpdate.intern().key,
        StateTransition.intern().key,
        Update.intern().key,
        PostUpdate.intern().key,
        Last.intern().key,
    ];
    for i in 0..keys.len() {
        for j in 0..keys.len() {
            if i != j {
                assert_ne!(keys[i], keys[j]);
            }
        }
    }
}
