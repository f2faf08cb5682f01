//! A change-detection runtime for tick-stamped data, with the app scaffold
//! around it.
//!
//! Tracked data carries a pair of [`component::Tick`]s recording when it was
//! inserted and when it was last written. Smart references in [`access`]
//! bundle a data borrow with those ticks and the observation window of the
//! reading system, so every read can answer "was this added or changed since
//! I last looked". A per-world counter in [`world`] advances once per update
//! cycle, and a periodic sweep clamps stale ticks before wrapping arithmetic
//! could corrupt comparisons. On top of the world sit schedules of systems,
//! plugins that set them up, and the [`app::App`] that drives update cycles.

pub mod access;
pub mod app;
pub mod change_detection;
pub mod component;
pub mod default_plugins;
pub mod frame;
pub mod hierarchy;
pub mod main_schedule;
pub mod plugin;
pub mod plugin_group;
pub mod schedule;
pub mod schedule_runner;
pub mod task_pool_plugin;
pub mod time;
pub mod world;

pub use access::Mut;
pub use access::NonSendMut;
pub use access::Ref;
pub use access::Res;
pub use access::ResMut;
pub use access::Resource;
pub use app::App;
pub use app::AppError;
pub use app::AppExit;
pub use app::Event;
pub use app::PluginsState;
pub use app::RunnerKind;
pub use change_detection::CHECK_TICK_THRESHOLD;
pub use change_detection::DetectChanges;
pub use change_detection::DetectChangesMut;
pub use change_detection::MAX_CHANGE_AGE;
pub use change_detection::Ticks;
pub use change_detection::TicksMut;
pub use component::ComponentTicks;
pub use component::Tick;
pub use default_plugins::DefaultPlugins;
pub use default_plugins::MinimalPlugins;
pub use frame::FrameCount;
pub use frame::FrameCountPlugin;
pub use frame::update_frame_count;
pub use hierarchy::Entity;
pub use hierarchy::HierarchyPlugin;
pub use hierarchy::Parent;
pub use main_schedule::Last;
pub use main_schedule::Main;
pub use main_schedule::MainScheduleOrder;
pub use main_schedule::MainSchedulePlugin;
pub use main_schedule::PostStartup;
pub use main_schedule::PostUpdate;
pub use main_schedule::PreStartup;
pub use main_schedule::PreUpdate;
pub use main_schedule::Startup;
pub use main_schedule::StateTransition;
pub use main_schedule::Update;
pub use plugin::BuildAction;
pub use plugin::Plugin;
pub use plugin::PluginDescriptor;
pub use plugin_group::NoopPluginGroup;
pub use plugin_group::PluginEntry;
pub use plugin_group::PluginGroup;
pub use plugin_group::PluginGroupBuilder;
pub use schedule::ExecutorKind;
pub use schedule::InternedScheduleLabel;
pub use schedule::LogLevel;
pub use schedule::Schedule;
pub use schedule::ScheduleBuildSettings;
pub use schedule::ScheduleLabel;
pub use schedule::Schedules;
pub use schedule::SystemAction;
pub use schedule_runner::RunMode;
pub use schedule_runner::ScheduleRunnerPlugin;
pub use task_pool_plugin::NonSendMarker;
pub use task_pool_plugin::TaskPoolOptions;
pub use task_pool_plugin::TaskPoolPlugin;
pub use time::Time;
pub use time::TimePlugin;
pub use time::TimeSystem;
pub use time::TimeUpdateStrategy;
pub use time::time_system;
pub use world::ResourceKind;
pub use world::ResourceValue;
pub use world::World;
