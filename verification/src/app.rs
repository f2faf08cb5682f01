//! The app: a world, its schedules, a plugin registry, and a runner.

use vstd::prelude::*;

use crate::main_schedule::Main;
use crate::main_schedule::MainSchedulePlugin;
use crate::main_schedule::is_default_order;
use crate::plugin::BuildAction;
use crate::plugin::Plugin;
use crate::plugin::PluginDescriptor;
use crate::schedule::ExecutorKind;
use crate::schedule::InternedScheduleLabel;
use crate::schedule::LogLevel;
use crate::schedule::Schedule;
use crate::schedule::ScheduleBuildSettings;
use crate::schedule::ScheduleLabel;
use crate::schedule::Schedules;
use crate::schedule::SystemAction;
use crate::schedule::spec_ambiguity_added;
use crate::schedule::spec_set_added;
use crate::schedule::spec_system_added;
use crate::schedule::spec_upserted;
use crate::schedule_runner::RunMode;
use crate::world::ResourceKind;
use crate::world::ResourceValue;
use crate::world::World;
use crate::world::spec_run_schedule;

verus! {

/// Where an app's plugins stand in their life cycle.
#[derive(Debug, Clone, Copy, PartialEq, Eq, Structural)]
pub enum PluginsState {
    /// Plugins are being added.
    Adding,
    /// All plugins added so far are ready.
    Ready,
    /// Finish has been executed for all plugins added.
    Finished,
    /// Cleanup has been executed for all plugins added.
    Cleaned,
}

/// An event that asks the app to exit: the runner stops its loop at the
/// start of the next cycle after one is sent.
#[derive(Debug, Clone, Copy, PartialEq, Eq, Structural)]
pub struct AppExit;

/// An event type that an app can register.
pub trait Event {
    /// The key standing for this event type. An implementation outside
    /// this crate that leaves the default says nothing about its key.
    open spec fn spec_key() -> u64 {
        arbitrary()
    }

    /// Returns the key standing for this event type.
    fn key() -> (k: u64)
        ensures
            k == Self::spec_key(),
    ;
}

impl Event for AppExit {
    open spec fn spec_key() -> u64 {
        1
    }

    fn key() -> (k: u64) {
        1
    }
}

/// Why adding a plugin was refused.
#[derive(Debug, PartialEq, Eq)]
pub enum AppError {
    /// A plugin of this name was already added, and the plugin is unique.
    DuplicatePlugin { plugin_name: String },
}

/// What drives the app when it runs: the default driver finishes the
/// plugins and performs one update, while a schedule runner follows its
/// [`RunMode`]. Under [`RunMode::Loop`] the repeat itself belongs to the
/// host's event loop, one [`App::update`] call per pass.
#[derive(Debug, Clone, Copy, PartialEq, Eq, Structural)]
pub enum RunnerKind {
    /// Finish the plugins, then run the main schedule once.
    RunOnce,
    /// Run as the schedule-runner plugin configured.
    Schedule(RunMode),
}

/// A container of app logic: a [`World`] holding the data and schedules, a
/// registry of the plugins added, and the runner that drives update cycles.
pub struct App {
    /// The main world of the app: all of its data and schedules.
    pub world: World,
    /// What drives the app when it runs.
    pub runner: RunnerKind,
    /// The schedule that [`App::update`] runs.
    pub main_schedule_label: InternedScheduleLabel,
    /// The descriptors of the plugins added, in the order they were added.
    pub plugin_registry: Vec<PluginDescriptor>,
    /// The names of the unique plugins added, for duplicate detection.
    pub plugin_names: Vec<String>,
    /// Where the added plugins stand in their life cycle.
    pub plugins_state: PluginsState,
}

/// The names in `names`, as character sequences.
pub open spec fn spec_name_views(names: Seq<String>) -> Seq<Seq<char>> {
    names.map_values(|s: String| s@)
}

/// The `(world, runner)` transition that applying `action` performs; the
/// registry and the rest of the app stay as they are.
pub open spec fn spec_build_applied(pre: App, post: App, action: BuildAction) -> bool {
    match action {
        BuildAction::Nothing => post.world == pre.world && post.runner == pre.runner,
        BuildAction::ScheduleRunner(mode) => post.world == pre.world && post.runner
            == RunnerKind::Schedule(mode),
        BuildAction::MainSchedule => {
            &&& exists|mid: Schedules, e: Schedule|
                {
                    &&& #[trigger] spec_upserted(
                        pre.world.schedules,
                        mid,
                        Main::spec_key(),
                        e,
                    )
                    &&& e.systems@ == Seq::<SystemAction>::empty()
                    &&& e.configured_sets@ == Seq::<u64>::empty()
                    &&& e.ignored_ambiguities@ == Seq::<(u64, u64)>::empty()
                    &&& e.executor == ExecutorKind::SingleThreaded
                    &&& e.settings.ambiguity_detection == LogLevel::Ignore
                    &&& spec_system_added(
                        mid,
                        post.world.schedules,
                        Main::spec_key(),
                        SystemAction::RunMain,
                    )
                }
            &&& pre.world.main_schedule_order is Some ==> post.world.main_schedule_order
                == pre.world.main_schedule_order
            &&& pre.world.main_schedule_order is None ==> post.world.main_schedule_order is Some
                && is_default_order(post.world.main_schedule_order.unwrap())
            &&& post.world == (World {
                schedules: post.world.schedules,
                main_schedule_order: post.world.main_schedule_order,
                ..pre.world
            })
            &&& post.runner == pre.runner
        },
        BuildAction::TaskPools => {
            &&& exists|mid1: Schedules, mid2: Schedules|
                {
                    &&& spec_system_added(
                        pre.world.schedules,
                        mid1,
                        crate::main_schedule::PostUpdate::spec_key(),
                        SystemAction::TickTaskPools,
                    )
                    &&& #[trigger] spec_system_added(
                        mid1,
                        mid2,
                        crate::main_schedule::Update::spec_key(),
                        SystemAction::TickTaskPools,
                    )
                    &&& spec_system_added(
                        mid2,
                        post.world.schedules,
                        crate::main_schedule::PreUpdate::spec_key(),
                        SystemAction::TickTaskPools,
                    )
                }
            &&& post.world == (World { schedules: post.world.schedules, ..pre.world })
            &&& post.runner == pre.runner
        },
        BuildAction::FrameCount => {
            &&& spec_system_added(
                pre.world.schedules,
                post.world.schedules,
                crate::main_schedule::Last::spec_key(),
                SystemAction::UpdateFrameCount,
            )
            &&& post.world == (World {
                schedules: post.world.schedules,
                frame_count: World::spec_init_resource(
                    pre.world,
                    ResourceKind::FrameCount,
                ).frame_count,
                ..pre.world
            })
            &&& post.runner == pre.runner
        },
        BuildAction::Time => {
            &&& spec_system_added(
                pre.world.schedules,
                post.world.schedules,
                crate::main_schedule::PreUpdate::spec_key(),
                SystemAction::AdvanceTime,
            )
            &&& post.world == (World {
                schedules: post.world.schedules,
                time: World::spec_init_resource(pre.world, ResourceKind::Time).time,
                time_update_strategy: World::spec_init_resource(
                    pre.world,
                    ResourceKind::TimeUpdateStrategy,
                ).time_update_strategy,
                ..pre.world
            })
            &&& post.runner == pre.runner
        },
    }
}

impl App {
    /// The app's structural invariant.
    pub open spec fn wf(&self) -> bool {
        self.world.wf()
    }

    /// The names of the unique plugins added, as character sequences.
    pub open spec fn spec_plugin_names(&self) -> Seq<Seq<char>> {
        spec_name_views(self.plugin_names@)
    }

    /// Whether a unique plugin of the given name was added.
    pub open spec fn spec_has_plugin_name(&self, name: Seq<char>) -> bool {
        self.spec_plugin_names().contains(name)
    }

    /// Creates a new empty app with minimal default configuration: an empty
    /// world, the default one-shot runner, and the main schedule label.
    pub fn empty() -> (app: App)
        ensures
            app.wf(),
            World::spec_is_fresh(app.world),
            app.runner == RunnerKind::RunOnce,
            app.main_schedule_label.key == Main::spec_key(),
            app.plugin_registry@ == Seq::<PluginDescriptor>::empty(),
            app.plugin_names@ == Seq::<String>::empty(),
            app.plugins_state == PluginsState::Adding,
    {
        App {
            world: World::new(),
            runner: RunnerKind::RunOnce,
            main_schedule_label: Main.intern(),
            plugin_registry: Vec::new(),
            plugin_names: Vec::new(),
            plugins_state: PluginsState::Adding,
        }
    }

    /// Whether the unique plugin name `name` was already added; a duplicate
    /// of such a name must be refused.
    fn has_plugin_name(&self, name: &String) -> (r: bool)
        ensures
            r == self.spec_has_plugin_name(name@),
    {
        let mut i: usize = 0;
        while i < self.plugin_names.len()
            invariant
                i <= self.plugin_names@.len(),
                forall|j: int| 0 <= j < i ==> self.spec_plugin_names()[j] != name@,
            decreases self.plugin_names@.len() - i,
        {
            if self.plugin_names[i] == *name {
                proof {
                    assert(self.spec_plugin_names()[i as int] == name@);
                }
                return true;
            }
            i += 1;
        }
        proof {
            assert(!self.spec_has_plugin_name(name@)) by {
                if self.spec_has_plugin_name(name@) {
                    let j = choose|j: int|
                        0 <= j < self.spec_plugin_names().len() && self.spec_plugin_names()[j]
                            == name@;
                    assert(self.spec_plugin_names()[j] != name@);
                }
            }
        }
        false
    }

    /// Performs the setup work of one build action on this app.
    fn apply_build_action(&mut self, action: BuildAction)
        requires
            old(self).wf(),
        ensures
            final(self).wf(),
            spec_build_applied(*old(self), *final(self), action),
            final(self).plugin_registry == old(self).plugin_registry,
            final(self).plugin_names == old(self).plugin_names,
            final(self).plugins_state == old(self).plugins_state,
            final(self).main_schedule_label == old(self).main_schedule_label,
    {
        match action {
            BuildAction::Nothing => {},
            BuildAction::ScheduleRunner(mode) => {
                self.runner = RunnerKind::Schedule(mode);
            },
            BuildAction::MainSchedule => {
                let label = Main.intern();
                let mut main_schedule = Schedule::new(label);
                main_schedule.set_executor_kind(ExecutorKind::SingleThreaded);
                let ghost inserted = main_schedule;
                self.world.schedules.insert(main_schedule);
                let ghost mid = self.world.schedules;
                proof {
                    assert(spec_upserted(old(self).world.schedules, mid, Main::spec_key(), inserted));
                }
                self.world.init_resource(ResourceKind::MainScheduleOrder);
                self.world.schedules.add_system_to(label, SystemAction::RunMain);
                proof {
                    assert(spec_system_added(
                        mid,
                        self.world.schedules,
                        Main::spec_key(),
                        SystemAction::RunMain,
                    ));
                }
            },
            BuildAction::TaskPools => {
                self.world.schedules.add_system_to(
                    crate::main_schedule::PostUpdate.intern(),
                    SystemAction::TickTaskPools,
                );
                let ghost mid1 = self.world.schedules;
                self.world.schedules.add_system_to(
                    crate::main_schedule::Update.intern(),
                    SystemAction::TickTaskPools,
                );
                let ghost mid2 = self.world.schedules;
                self.world.schedules.add_system_to(
                    crate::main_schedule::PreUpdate.intern(),
                    SystemAction::TickTaskPools,
                );
            },
            BuildAction::FrameCount => {
                self.world.init_resource(ResourceKind::FrameCount);
                self.world.schedules.add_system_to(
                    crate::main_schedule::Last.intern(),
                    SystemAction::UpdateFrameCount,
                );
            },
            BuildAction::Time => {
                self.world.init_resource(ResourceKind::Time);
                self.world.init_resource(ResourceKind::TimeUpdateStrategy);
                self.world.schedules.add_system_to(
                    crate::main_schedule::PreUpdate.intern(),
                    SystemAction::AdvanceTime,
                );
            },
        }
    }

    /// Registers one plugin descriptor and performs its setup work. A
    /// unique descriptor whose name was already added is refused whole.
    pub(crate) fn add_plugin_descriptor(&mut self, descriptor: PluginDescriptor) -> (r: Result<
        (),
        AppError,
    >)
        requires
            old(self).wf(),
        ensures
            final(self).wf(),
            r is Err <==> descriptor.unique && old(self).spec_has_plugin_name(descriptor.name@),
            r is Err ==> *final(self) == *old(self) && (r matches Err(
                AppError::DuplicatePlugin { plugin_name },
            ) && plugin_name@ == descriptor.name@),
            r is Ok ==> {
                &&& final(self).plugin_registry@ == old(self).plugin_registry@.push(descriptor)
                &&& descriptor.unique ==> final(self).plugin_names@ == old(self).plugin_names@.push(descriptor.name)
                &&& !descriptor.unique ==> final(self).plugin_names == old(self).plugin_names
                &&& spec_build_applied(*old(self), *final(self), descriptor.action)
                &&& final(self).plugins_state == old(self).plugins_state
                &&& final(self).main_schedule_label == old(self).main_schedule_label
            },
    {
        if descriptor.unique && self.has_plugin_name(&descriptor.name) {
            let plugin_name = descriptor.name.clone();
            return Err(AppError::DuplicatePlugin { plugin_name });
        }
        if descriptor.unique {
            self.plugin_names.push(descriptor.name.clone());
        }
        let action = descriptor.action;
        self.plugin_registry.push(descriptor);
        self.apply_build_action(action);
        Ok(())
    }

    /// Adds a plugin: registers it and performs its setup work. Plugins
    /// cannot be added once the app's plugins were finished or cleaned up,
    /// and a unique plugin whose name was already added is refused; both
    /// are ruled out here rather than reported.
    pub fn add_plugins<P: Plugin>(&mut self, plugin: &P)
        requires
            old(self).wf(),
            old(self).plugins_state == PluginsState::Adding || old(self).plugins_state
                == PluginsState::Ready,
            !(P::spec_is_unique() && old(self).spec_has_plugin_name(P::spec_name())),
        ensures
            final(self).wf(),
            final(self).plugin_registry@ == old(self).plugin_registry@.push(
                final(self).plugin_registry@.last(),
            ),
            final(self).plugin_registry@.last().key == P::spec_key(),
            final(self).plugin_registry@.last().name@ == P::spec_name(),
            final(self).plugin_registry@.last().unique == P::spec_is_unique(),
            final(self).plugin_registry@.last().action == plugin.spec_build_action(),
            P::spec_is_unique() ==> spec_name_views(final(self).plugin_names@) == spec_name_views(
                old(self).plugin_names@,
            ).push(P::spec_name()),
            !P::spec_is_unique() ==> final(self).plugin_names == old(self).plugin_names,
            spec_build_applied(*old(self), *final(self), plugin.spec_build_action()),
            final(self).plugins_state == old(self).plugins_state,
            final(self).main_schedule_label == old(self).main_schedule_label,
    {
        let descriptor = PluginDescriptor {
            key: P::key(),
            name: plugin.name(),
            unique: plugin.is_unique(),
            action: plugin.build_action(),
        };
        let ghost names_before = self.plugin_names@;
        let r = self.add_plugin_descriptor(descriptor);
        proof {
            assert(r is Ok);
            if P::spec_is_unique() {
                assert(spec_name_views(self.plugin_names@) =~= spec_name_views(
                    names_before,
                ).push(P::spec_name()));
            }
        }
    }

    /// Creates a new app with the core structure in place: the main
    /// schedule with its runner system, the standard schedule order, and
    /// the exit event registered.
    pub fn new() -> (app: App)
        ensures
            app.wf(),
            app.runner == RunnerKind::RunOnce,
            app.main_schedule_label.key == Main::spec_key(),
            app.plugins_state == PluginsState::Adding,
            app.world.schedules.entries@.len() == 1,
            app.world.schedules.entries@[0].label.key == Main::spec_key(),
            app.world.schedules.entries@[0].systems@ == seq![SystemAction::RunMain],
            app.world.schedules.entries@[0].executor == ExecutorKind::SingleThreaded,
            app.world.main_schedule_order is Some && is_default_order(
                app.world.main_schedule_order.unwrap(),
            ),
            app.world.event_keys@ == seq![AppExit::spec_key()],
            app.world.change_tick.tick == 1,
            app.world.last_change_tick.tick == 0,
            app.world.component_ticks@ == Seq::<crate::component::ComponentTicks>::empty(),
            app.world.system_ticks@ == Seq::<crate::component::Tick>::empty(),
            app.world.frame_count is None,
            app.world.time is None,
            app.world.time_update_strategy is None,
            !app.world.app_exit_requested,
            app.plugin_registry@.len() == 1,
            app.plugin_registry@[0].key == MainSchedulePlugin::spec_key(),
            app.spec_plugin_names() == seq![MainSchedulePlugin::spec_name()],
    {
        let mut app = App::empty();
        app.add_plugins(&MainSchedulePlugin);
        app.add_event::<AppExit>();
        proof {
            assert(app.world.event_keys@ =~= seq![AppExit::spec_key()]);
            assert(app.spec_plugin_names() =~= seq![MainSchedulePlugin::spec_name()]);
        }
        app
    }

    /// Runs the main schedule once, then closes the observation window for
    /// world-level reads.
    pub fn update(&mut self)
        requires
            old(self).wf(),
        ensures
            final(self).wf(),
            ({
                let ran = spec_run_schedule(old(self).world, old(self).main_schedule_label.key);
                final(self).world == (World {
                    last_change_tick: ran.change_tick,
                    change_tick: (crate::component::Tick {
                        tick: vstd::wrapping::u32_specs::wrapping_add(ran.change_tick.tick, 1),
                    }),
                    ..ran
                })
            }),
            final(self).runner == old(self).runner,
            final(self).main_schedule_label == old(self).main_schedule_label,
            final(self).plugin_registry == old(self).plugin_registry,
            final(self).plugin_names == old(self).plugin_names,
            final(self).plugins_state == old(self).plugins_state,
    {
        let label = self.main_schedule_label;
        self.world.run_schedule(label);
        self.world.clear_trackers();
    }

    /// Where the added plugins stand. Descriptors are ready as soon as they
    /// are registered, so an app still adding reports ready.
    pub fn plugins_state(&self) -> (s: PluginsState)
        ensures
            self.plugins_state == PluginsState::Adding ==> s == PluginsState::Ready,
            self.plugins_state != PluginsState::Adding ==> s == self.plugins_state,
    {
        match self.plugins_state {
            PluginsState::Adding => PluginsState::Ready,
            state => state,
        }
    }

    /// Marks the finish step of every added plugin as done.
    pub fn finish(&mut self)
        ensures
            final(self).plugins_state == PluginsState::Finished,
            *final(self) == (App { plugins_state: PluginsState::Finished, ..*old(self) }),
    {
        self.plugins_state = PluginsState::Finished;
    }

    /// Marks the cleanup step of every added plugin as done.
    pub fn cleanup(&mut self)
        ensures
            final(self).plugins_state == PluginsState::Cleaned,
            *final(self) == (App { plugins_state: PluginsState::Cleaned, ..*old(self) }),
    {
        self.plugins_state = PluginsState::Cleaned;
    }

    /// Hands the app to its runner. The app itself is left empty, as if
    /// freshly constructed with [`App::empty`]; the running copy finishes
    /// its plugins and performs the cycle work its runner asks for. A
    /// looping runner's repeat belongs to the host's event loop, which
    /// calls [`App::update`] once per pass until an exit is requested.
    pub fn run(&mut self)
        requires
            old(self).wf(),
        ensures
            final(self).wf(),
            World::spec_is_fresh(final(self).world),
            final(self).runner == RunnerKind::RunOnce,
            final(self).main_schedule_label.key == Main::spec_key(),
            final(self).plugin_registry@ == Seq::<PluginDescriptor>::empty(),
            final(self).plugin_names@ == Seq::<String>::empty(),
            final(self).plugins_state == PluginsState::Adding,
    {
        let mut app = App::empty();
        core::mem::swap(self, &mut app);
        match app.runner {
            RunnerKind::RunOnce => {
                run_once(app);
            },
            RunnerKind::Schedule(mode) => {
                if app.plugins_state() != PluginsState::Cleaned {
                    app.finish();
                    app.cleanup();
                }
                match mode {
                    RunMode::Once => {
                        app.update();
                    },
                    RunMode::Loop => {
                        if !app.world.app_exit_requested {
                            app.update();
                        }
                    },
                }
            },
        }
    }

    /// Appends `system` to the given schedule, creating the schedule first
    /// when the app does not have it yet.
    pub fn add_systems<L: ScheduleLabel>(&mut self, schedule: &L, system: SystemAction)
        requires
            old(self).wf(),
        ensures
            final(self).wf(),
            spec_system_added(
                old(self).world.schedules,
                final(self).world.schedules,
                L::spec_key(),
                system,
            ),
            final(self).world == (World {
                schedules: final(self).world.schedules,
                ..old(self).world
            }),
            *final(self) == (App { world: final(self).world, ..*old(self) }),
    {
        let label = schedule.intern();
        self.world.schedules.add_system_to(label, system);
    }

    /// Registers a system set on the given schedule, creating the schedule
    /// first when the app does not have it yet.
    pub fn configure_sets<L: ScheduleLabel>(&mut self, schedule: &L, set: u64)
        requires
            old(self).wf(),
        ensures
            final(self).wf(),
            spec_set_added(
                old(self).world.schedules,
                final(self).world.schedules,
                L::spec_key(),
                set,
            ),
            final(self).world == (World {
                schedules: final(self).world.schedules,
                ..old(self).world
            }),
            *final(self) == (App { world: final(self).world, ..*old(self) }),
    {
        let label = schedule.intern();
        self.world.schedules.add_set_to(label, set);
    }

    /// Suppresses ambiguity reports between the two system sets in the
    /// given schedule, creating the schedule first when it is missing.
    pub fn ignore_ambiguity<L: ScheduleLabel>(&mut self, schedule: &L, a: u64, b: u64)
        requires
            old(self).wf(),
        ensures
            final(self).wf(),
            spec_ambiguity_added(
                old(self).world.schedules,
                final(self).world.schedules,
                L::spec_key(),
                a,
                b,
            ),
            final(self).world == (World {
                schedules: final(self).world.schedules,
                ..old(self).world
            }),
            *final(self) == (App { world: final(self).world, ..*old(self) }),
    {
        let label = schedule.intern();
        self.world.schedules.add_ambiguity_to(label, a, b);
    }

    /// Registers the event type `E`, so that its buffers can be kept by
    /// the host's event machinery; registering a type twice does nothing.
    pub fn add_event<E: Event>(&mut self)
        requires
            old(self).wf(),
        ensures
            final(self).wf(),
            old(self).world.event_keys@.contains(E::spec_key()) ==> *final(self) == *old(self),
            !old(self).world.event_keys@.contains(E::spec_key()) ==> final(self).world.event_keys@
                == old(self).world.event_keys@.push(E::spec_key()) && final(self).world == (World {
                event_keys: final(self).world.event_keys,
                ..old(self).world
            }) && *final(self) == (App { world: final(self).world, ..*old(self) }),
    {
        let key = E::key();
        self.world.register_event_key(key);
    }

    /// Inserts a resource value on the app's world, overwriting and
    /// stamping changed any value already in its slot.
    pub fn insert_resource(&mut self, value: ResourceValue)
        requires
            old(self).wf(),
        ensures
            final(self).wf(),
            final(self).world == World::spec_insert_resource(old(self).world, value),
            *final(self) == (App { world: final(self).world, ..*old(self) }),
    {
        self.world.insert_resource(value);
    }

    /// Initializes a resource slot on the app's world with its standard
    /// starting value; an occupied slot is left untouched.
    pub fn init_resource(&mut self, kind: ResourceKind)
        requires
            old(self).wf(),
        ensures
            final(self).wf(),
            kind != ResourceKind::MainScheduleOrder ==> final(self).world
                == World::spec_init_resource(old(self).world, kind),
            kind == ResourceKind::MainScheduleOrder && old(self).world.main_schedule_order is Some
                ==> final(self).world == old(self).world,
            kind == ResourceKind::MainScheduleOrder && old(self).world.main_schedule_order is None
                ==> final(self).world.main_schedule_order is Some && is_default_order(
                final(self).world.main_schedule_order.unwrap(),
            ) && final(self).world == (World {
                main_schedule_order: final(self).world.main_schedule_order,
                ..old(self).world
            }),
            *final(self) == (App { world: final(self).world, ..*old(self) }),
    {
        self.world.init_resource(kind);
    }

    /// Inserts a resource that must stay on the main thread. The storage
    /// is the same as for any resource; keeping the data off worker
    /// threads is the host scheduler's side of the bargain.
    pub fn insert_non_send_resource(&mut self, value: ResourceValue)
        requires
            old(self).wf(),
        ensures
            final(self).wf(),
            final(self).world == World::spec_insert_resource(old(self).world, value),
            *final(self) == (App { world: final(self).world, ..*old(self) }),
    {
        self.world.insert_resource(value);
    }

    /// Initializes a main-thread resource slot with its standard starting
    /// value; an occupied slot is left untouched. The storage is the same
    /// as for any resource; keeping the data off worker threads is the
    /// host scheduler's side of the bargain.
    pub fn init_non_send_resource(&mut self, kind: ResourceKind)
        requires
            old(self).wf(),
        ensures
            final(self).wf(),
            kind != ResourceKind::MainScheduleOrder ==> final(self).world
                == World::spec_init_resource(old(self).world, kind),
            kind == ResourceKind::MainScheduleOrder && old(self).world.main_schedule_order is Some
                ==> final(self).world == old(self).world,
            kind == ResourceKind::MainScheduleOrder && old(self).world.main_schedule_order is None
                ==> final(self).world.main_schedule_order is Some && is_default_order(
                final(self).world.main_schedule_order.unwrap(),
            ) && final(self).world == (World {
                main_schedule_order: final(self).world.main_schedule_order,
                ..old(self).world
            }),
            *final(self) == (App { world: final(self).world, ..*old(self) }),
    {
        self.world.init_resource(kind);
    }

    /// Hands the app a runner; [`App::run`] will follow it.
    pub fn set_runner(&mut self, run_fn: RunnerKind)
        ensures
            *final(self) == (App { runner: run_fn, ..*old(self) }),
    {
        self.runner = run_fn;
    }

    /// Whether a plugin of type `P` has been added, by its type key.
    pub fn is_plugin_added<P: Plugin>(&self) -> (r: bool)
        ensures
            r == exists|i: int|
                0 <= i < self.plugin_registry@.len() && #[trigger] self.plugin_registry@[i].key
                    == P::spec_key(),
    {
        let key = P::key();
        let mut i: usize = 0;
        while i < self.plugin_registry.len()
            invariant
                i <= self.plugin_registry@.len(),
                key == P::spec_key(),
                forall|j: int| 0 <= j < i ==> #[trigger] self.plugin_registry@[j].key != key,
            decreases self.plugin_registry@.len() - i,
        {
            if self.plugin_registry[i].key == key {
                return true;
            }
            i += 1;
        }
        false
    }

    /// Stores `schedule` on the app, replacing any schedule already stored
    /// under the same label.
    pub fn add_schedule(&mut self, schedule: Schedule)
        requires
            old(self).wf(),
        ensures
            final(self).wf(),
            spec_upserted(
                old(self).world.schedules,
                final(self).world.schedules,
                schedule.label.key,
                schedule,
            ),
            final(self).world == (World {
                schedules: final(self).world.schedules,
                ..old(self).world
            }),
            *final(self) == (App { world: final(self).world, ..*old(self) }),
    {
        self.world.schedules.insert(schedule);
    }

    /// Stores an empty schedule under `label` when the app has none yet.
    pub fn init_schedule<L: ScheduleLabel>(&mut self, label: &L)
        requires
            old(self).wf(),
        ensures
            final(self).wf(),
            final(self).world.schedules.spec_contains(L::spec_key()),
            old(self).world.schedules.spec_contains(L::spec_key()) ==> *final(self) == *old(self),
            final(self).world == (World {
                schedules: final(self).world.schedules,
                ..old(self).world
            }),
            *final(self) == (App { world: final(self).world, ..*old(self) }),
    {
        let interned = label.intern();
        self.world.schedules.init_label(interned);
        proof {
            if !old(self).world.schedules.spec_contains(L::spec_key()) {
                let n = old(self).world.schedules.entries@.len() as int;
                assert(self.world.schedules.entries@[n].label.key == L::spec_key());
            }
        }
    }

    /// Returns the schedule stored under `label`, if any.
    pub fn get_schedule<L: ScheduleLabel>(&self, label: &L) -> (r: Option<&Schedule>)
        requires
            self.wf(),
        ensures
            match r {
                Some(s) => self.world.schedules.spec_contains(L::spec_key()) && *s
                    == self.world.schedules.spec_entry(L::spec_key()),
                None => !self.world.schedules.spec_contains(L::spec_key()),
            },
    {
        let interned = label.intern();
        self.world.schedules.get(interned)
    }

    /// Returns the schedule stored under `label` for writing, if any. The
    /// app stays well-formed as long as the caller leaves the label alone.
    pub fn get_schedule_mut<L: ScheduleLabel>(&mut self, label: &L) -> (r: Option<&mut Schedule>)
        requires
            old(self).wf(),
        ensures
            match r {
                None => !old(self).world.schedules.spec_contains(L::spec_key()) && *final(self)
                    == *old(self),
                Some(s) => {
                    &&& old(self).world.schedules.spec_contains(L::spec_key())
                    &&& *s == old(self).world.schedules.spec_entry(L::spec_key())
                    &&& final(self).world.schedules.entries@ == old(self).world.schedules.entries@.update(
                        old(self).world.schedules.spec_index_of(L::spec_key()),
                        *final(s),
                    )
                    &&& final(self).world == (World {
                        schedules: final(self).world.schedules,
                        ..old(self).world
                    })
                    &&& *final(self) == (App { world: final(self).world, ..*old(self) })
                },
            },
    {
        let interned = label.intern();
        self.world.schedules.get_mut(interned)
    }

    /// Returns the schedule stored under `label` for writing, creating it
    /// first when the app has none. The app stays well-formed as long as
    /// the caller leaves the label alone.
    pub fn edit_schedule<L: ScheduleLabel>(&mut self, label: &L) -> (r: &mut Schedule)
        requires
            old(self).wf(),
        ensures
            r.label.key == L::spec_key(),
            old(self).world.schedules.spec_contains(L::spec_key()) ==> *r == old(self).world.schedules.spec_entry(L::spec_key()),
            !old(self).world.schedules.spec_contains(L::spec_key()) ==> {
                &&& r.systems@ == Seq::<SystemAction>::empty()
                &&& r.configured_sets@ == Seq::<u64>::empty()
                &&& r.ignored_ambiguities@ == Seq::<(u64, u64)>::empty()
                &&& r.executor == ExecutorKind::MultiThreaded
                &&& r.settings.ambiguity_detection == LogLevel::Ignore
            },
            old(self).world.schedules.spec_contains(L::spec_key()) ==> final(self).world.schedules.entries@ == old(self).world.schedules.entries@.update(
                old(self).world.schedules.spec_index_of(L::spec_key()),
                *final(r),
            ),
            !old(self).world.schedules.spec_contains(L::spec_key()) ==> final(self).world.schedules.entries@ == old(self).world.schedules.entries@.push(*final(r)),
            final(self).world == (World {
                schedules: final(self).world.schedules,
                ..old(self).world
            }),
            *final(self) == (App { world: final(self).world, ..*old(self) }),
    {
        let interned = label.intern();
        self.world.schedules.init_label(interned);
        proof {
            if !old(self).world.schedules.spec_contains(L::spec_key()) {
                let n = old(self).world.schedules.entries@.len() as int;
                assert(self.world.schedules.entries@[n].label.key == L::spec_key());
            }
            assert(self.world.schedules.spec_contains(L::spec_key()));
        }
        let position = self.world.schedules.index_of(interned);
        match position {
            Some(i) => &mut self.world.schedules.entries[i],
            None => {
                proof {
                    assert(false);
                }
                &mut self.world.schedules.entries[0]
            },
        }
    }

    /// Applies the given build settings to every schedule stored on the
    /// app.
    pub fn configure_schedules(&mut self, settings: ScheduleBuildSettings)
        requires
            old(self).wf(),
        ensures
            final(self).wf(),
            final(self).world.schedules.entries@.len() == old(self).world.schedules.entries@.len(),
            forall|i: int|
                0 <= i < old(self).world.schedules.entries@.len() ==> #[trigger] final(self).world.schedules.entries@[i] == (Schedule {
                    settings,
                    ..old(self).world.schedules.entries@[i]
                }),
            final(self).world == (World {
                schedules: final(self).world.schedules,
                ..old(self).world
            }),
            *final(self) == (App { world: final(self).world, ..*old(self) }),
    {
        self.world.schedules.configure_schedules(settings);
    }
}

/// The default runner: waits for the plugins to be ready, finishes and
/// cleans them up, and runs the main schedule once. With descriptors ready
/// on registration, there is nothing to wait for.
pub fn run_once(mut app: App)
    requires
        app.wf(),
{
    app.finish();
    app.cleanup();
    app.update();
}

} // verus!
