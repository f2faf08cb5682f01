//! The world: the tick counter, the tracked tick store, and the sweep.

use vstd::prelude::*;

use crate::change_detection::MAX_CHANGE_AGE;
use crate::change_detection::CHECK_TICK_THRESHOLD;
use crate::component::ComponentTicks;
use crate::component::Tick;
use crate::component::tick_distance;
use crate::access::Res;
use crate::access::ResMut;
use crate::change_detection::Ticks;
use crate::change_detection::TicksMut;
use crate::frame::FrameCount;
use crate::frame::update_frame_count;
use crate::main_schedule::MainScheduleOrder;
use crate::schedule::InternedScheduleLabel;
use crate::schedule::Schedules;
use crate::schedule::SystemAction;
use crate::time::Time;
use crate::time::TimeUpdateStrategy;
use crate::time::spec_advanced_time;
use crate::time::time_system;

verus! {

/// A resource value the world can store, together with which slot it fills.
#[derive(Debug, Clone, PartialEq, Eq)]
pub enum ResourceValue {
    FrameCount(FrameCount),
    Time(Time),
    TimeUpdateStrategy(TimeUpdateStrategy),
    MainScheduleOrder(MainScheduleOrder),
}

/// The name of one of the world's resource slots, for initializing it to its
/// standard starting value.
#[derive(Debug, Clone, Copy, PartialEq, Eq, Structural)]
pub enum ResourceKind {
    FrameCount,
    Time,
    TimeUpdateStrategy,
    MainScheduleOrder,
}

/// One world: the global change counter, the tick pair of every tracked
/// storage slot, the bookkeeping tick of every registered system, and the
/// resources the runtime itself keeps.
///
/// The counter advances once per update cycle. Between two sweep passes it
/// may advance at most [`CHECK_TICK_THRESHOLD`] times; the sweep then clamps
/// every stored tick so that no tracked age ever exceeds [`MAX_CHANGE_AGE`],
/// which keeps the wrapping comparisons of [`Tick::is_newer_than`] correct.
pub struct World {
    /// The current value of the global change counter.
    pub change_tick: Tick,
    /// The counter's value when trackers were last cleared: the opening tick
    /// for reads made directly on the world.
    pub last_change_tick: Tick,
    /// The counter's value when the sweep last ran.
    pub last_check_tick: Tick,
    /// The tick pair of every tracked component slot, by slot index.
    pub component_ticks: Vec<ComponentTicks>,
    /// The `last_run` tick of every registered system, by system index.
    pub system_ticks: Vec<Tick>,
    /// The schedules stored on this world.
    pub schedules: Schedules,
    /// The order of phase schedules that the main schedule runs.
    pub main_schedule_order: Option<MainScheduleOrder>,
    /// The frame counter and its tick pair.
    pub frame_count: Option<(FrameCount, ComponentTicks)>,
    /// The virtual clock and its tick pair.
    pub time: Option<(Time, ComponentTicks)>,
    /// The clock's update strategy and its tick pair.
    pub time_update_strategy: Option<(TimeUpdateStrategy, ComponentTicks)>,
    /// The keys of the event types registered on this world.
    pub event_keys: Vec<u64>,
    /// Whether an exit has been requested since the flag was last read.
    pub app_exit_requested: bool,
}

impl World {
    /// The world's structural invariant: schedule labels are unique.
    pub open spec fn wf(&self) -> bool {
        self.schedules.wf()
    }

    /// A world as [`World::new`] returns it.
    pub open spec fn spec_is_fresh(w: World) -> bool {
        &&& w.change_tick.tick == 1
        &&& w.last_change_tick.tick == 0
        &&& w.last_check_tick.tick == 0
        &&& w.component_ticks@ == Seq::<ComponentTicks>::empty()
        &&& w.system_ticks@ == Seq::<Tick>::empty()
        &&& w.schedules.entries@ == Seq::<crate::schedule::Schedule>::empty()
        &&& w.main_schedule_order is None
        &&& w.frame_count is None
        &&& w.time is None
        &&& w.time_update_strategy is None
        &&& w.event_keys@ == Seq::<u64>::empty()
        &&& !w.app_exit_requested
    }

    /// Creates an empty world. The counter starts at 1 with the last-cleared
    /// point at 0, so data inserted before the first cycle completes is seen
    /// as added and changed.
    pub fn new() -> (w: World)
        ensures
            World::spec_is_fresh(w),
            w.change_tick.tick == 1,
            w.last_change_tick.tick == 0,
            w.last_check_tick.tick == 0,
            w.component_ticks@ == Seq::<ComponentTicks>::empty(),
            w.system_ticks@ == Seq::<Tick>::empty(),
            w.schedules.entries@ == Seq::<crate::schedule::Schedule>::empty(),
            w.main_schedule_order is None,
            w.frame_count is None,
            w.time is None,
            w.time_update_strategy is None,
            w.event_keys@ == Seq::<u64>::empty(),
            !w.app_exit_requested,
            w.wf(),
    {
        World {
            change_tick: Tick::new(1),
            last_change_tick: Tick::new(0),
            last_check_tick: Tick::new(0),
            component_ticks: Vec::new(),
            system_ticks: Vec::new(),
            schedules: Schedules::new(),
            main_schedule_order: None,
            frame_count: None,
            time: None,
            time_update_strategy: None,
            event_keys: Vec::new(),
            app_exit_requested: false,
        }
    }

    /// Returns the current value of the global change counter.
    pub fn change_tick(&self) -> (t: Tick)
        ensures
            t == self.change_tick,
    {
        self.change_tick
    }

    /// Returns the counter's value as of the last tracker clearing.
    pub fn last_change_tick(&self) -> (t: Tick)
        ensures
            t == self.last_change_tick,
    {
        self.last_change_tick
    }

    /// Advances the global change counter by one, wrapping on overflow, and
    /// returns the new value. Called once per update cycle.
    pub fn increment_change_tick(&mut self) -> (t: Tick)
        ensures
            final(self).change_tick.tick == vstd::wrapping::u32_specs::wrapping_add(
                old(self).change_tick.tick,
                1,
            ),
            t == final(self).change_tick,
            *final(self) == (World { change_tick: final(self).change_tick, ..*old(self) }),
    {
        self.change_tick = Tick::new(self.change_tick.get().wrapping_add(1));
        self.change_tick
    }

    /// Closes the current observation window for world-level reads: the
    /// last-cleared point moves up to the current counter value, and the
    /// counter advances past it.
    pub fn clear_trackers(&mut self)
        ensures
            final(self).last_change_tick == old(self).change_tick,
            final(self).change_tick.tick == vstd::wrapping::u32_specs::wrapping_add(
                old(self).change_tick.tick,
                1,
            ),
            *final(self) == (World {
                last_change_tick: final(self).last_change_tick,
                change_tick: final(self).change_tick,
                ..*old(self)
            }),
    {
        self.last_change_tick = self.change_tick;
        self.change_tick = Tick::new(self.change_tick.get().wrapping_add(1));
    }

    /// Inserts one tracked component slot, stamping both of its ticks with
    /// the current counter value, and returns its index.
    pub fn spawn_tracked(&mut self) -> (index: usize)
        ensures
            index == old(self).component_ticks@.len(),
            final(self).component_ticks@ == old(self).component_ticks@.push(
                (ComponentTicks { added: old(self).change_tick, changed: old(self).change_tick }),
            ),
            *final(self) == (World { component_ticks: final(self).component_ticks, ..*old(self) }),
    {
        let index = self.component_ticks.len();
        let tick = self.change_tick;
        self.component_ticks.push(ComponentTicks::new(tick));
        index
    }

    /// Returns a copy of the tick pair of the tracked slot at `index`.
    pub fn component_ticks_at(&self, index: usize) -> (t: ComponentTicks)
        requires
            index < self.component_ticks@.len(),
        ensures
            t == self.component_ticks@[index as int],
    {
        self.component_ticks[index]
    }

    /// Stamps the tracked slot at `index` as changed at the current counter
    /// value, as a write through an exclusive borrow of the slot would.
    pub fn mark_component_changed(&mut self, index: usize)
        requires
            index < old(self).component_ticks@.len(),
        ensures
            final(self).component_ticks@ == old(self).component_ticks@.update(
                index as int,
                (ComponentTicks {
                    added: old(self).component_ticks@[index as int].added,
                    changed: old(self).change_tick,
                }),
            ),
            *final(self) == (World { component_ticks: final(self).component_ticks, ..*old(self) }),
    {
        let added = self.component_ticks[index].added;
        let changed = self.change_tick;
        self.component_ticks.set(index, ComponentTicks { added, changed });
    }

    /// Registers a system for change observation and returns its index. A
    /// fresh system's bookkeeping tick is placed a full tracked window in the
    /// past, so everything still inside the window is seen on its first run.
    pub fn register_system(&mut self) -> (index: usize)
        ensures
            index == old(self).system_ticks@.len(),
            final(self).system_ticks@ == old(self).system_ticks@.push(
                old(self).change_tick.spec_relative_to((Tick { tick: MAX_CHANGE_AGE })),
            ),
            *final(self) == (World { system_ticks: final(self).system_ticks, ..*old(self) }),
    {
        let index = self.system_ticks.len();
        let last_run = self.change_tick.relative_to(Tick::new(MAX_CHANGE_AGE));
        self.system_ticks.push(last_run);
        index
    }

    /// Records a run of the registered system at `index`: hands back the
    /// observation window `(last_run, this_run)` for this run, and moves the
    /// system's bookkeeping tick up to the current counter value.
    pub fn system_run_window(&mut self, index: usize) -> (window: (Tick, Tick))
        requires
            index < old(self).system_ticks@.len(),
        ensures
            window.0 == old(self).system_ticks@[index as int],
            window.1 == old(self).change_tick,
            final(self).system_ticks@ == old(self).system_ticks@.update(
                index as int,
                old(self).change_tick,
            ),
            *final(self) == (World { system_ticks: final(self).system_ticks, ..*old(self) }),
    {
        let last_run = self.system_ticks[index];
        let this_run = self.change_tick;
        self.system_ticks.set(index, this_run);
        (last_run, this_run)
    }

    /// What inserting `value` leaves in the world: the value lands in its
    /// slot; an occupied slot keeps its insertion tick and is stamped
    /// changed, an empty one gets a fresh tick pair.
    pub open spec fn spec_insert_resource(w: World, value: ResourceValue) -> World {
        match value {
            ResourceValue::FrameCount(v) => World {
                frame_count: Some((v, spec_insert_ticks(w.frame_count is Some, spec_frame_ticks(w), w.change_tick))),
                ..w
            },
            ResourceValue::Time(v) => World {
                time: Some((v, spec_insert_ticks(w.time is Some, spec_time_ticks(w), w.change_tick))),
                ..w
            },
            ResourceValue::TimeUpdateStrategy(v) => World {
                time_update_strategy: Some(
                    (
                        v,
                        spec_insert_ticks(
                            w.time_update_strategy is Some,
                            spec_strategy_ticks(w),
                            w.change_tick,
                        ),
                    ),
                ),
                ..w
            },
            ResourceValue::MainScheduleOrder(v) => World { main_schedule_order: Some(v), ..w },
        }
    }

    /// Inserts a resource value, overwriting any value already in its slot.
    /// An overwrite stamps the slot changed and keeps its insertion tick; a
    /// first insertion stamps both ticks with the current counter value.
    pub fn insert_resource(&mut self, value: ResourceValue)
        ensures
            *final(self) == World::spec_insert_resource(*old(self), value),
    {
        let tick = self.change_tick;
        match value {
            ResourceValue::FrameCount(v) => {
                let ticks = match self.frame_count.take() {
                    Some((_, mut t)) => {
                        t.set_changed(tick);
                        t
                    },
                    None => ComponentTicks::new(tick),
                };
                self.frame_count = Some((v, ticks));
            },
            ResourceValue::Time(v) => {
                let ticks = match self.time.take() {
                    Some((_, mut t)) => {
                        t.set_changed(tick);
                        t
                    },
                    None => ComponentTicks::new(tick),
                };
                self.time = Some((v, ticks));
            },
            ResourceValue::TimeUpdateStrategy(v) => {
                let ticks = match self.time_update_strategy.take() {
                    Some((_, mut t)) => {
                        t.set_changed(tick);
                        t
                    },
                    None => ComponentTicks::new(tick),
                };
                self.time_update_strategy = Some((v, ticks));
            },
            ResourceValue::MainScheduleOrder(v) => {
                self.main_schedule_order = Some(v);
            },
        }
    }

    /// What initializing the `kind` slot leaves in the world: an empty slot
    /// is filled with the standard starting value and a fresh tick pair; an
    /// occupied slot is left exactly as it is.
    pub open spec fn spec_init_resource(w: World, kind: ResourceKind) -> World {
        match kind {
            ResourceKind::FrameCount => if w.frame_count is Some {
                w
            } else {
                World {
                    frame_count: Some(
                        ((FrameCount(0)), (ComponentTicks { added: w.change_tick, changed: w.change_tick })),
                    ),
                    ..w
                }
            },
            ResourceKind::Time => if w.time is Some {
                w
            } else {
                World {
                    time: Some(
                        (
                            (Time { elapsed_nanos: 0, delta_nanos: 0 }),
                            (ComponentTicks { added: w.change_tick, changed: w.change_tick }),
                        ),
                    ),
                    ..w
                }
            },
            ResourceKind::TimeUpdateStrategy => if w.time_update_strategy is Some {
                w
            } else {
                World {
                    time_update_strategy: Some(
                        (
                            TimeUpdateStrategy::Automatic,
                            (ComponentTicks { added: w.change_tick, changed: w.change_tick }),
                        ),
                    ),
                    ..w
                }
            },
            // The standard schedule order is an executable construction, so
            // the order slot is specified on the method instead.
            ResourceKind::MainScheduleOrder => w,
        }
    }

    /// Initializes the `kind` slot with its standard starting value if it is
    /// empty; an occupied slot is left untouched.
    pub fn init_resource(&mut self, kind: ResourceKind)
        ensures
            kind != ResourceKind::MainScheduleOrder ==> *final(self) == World::spec_init_resource(
                *old(self),
                kind,
            ),
            kind == ResourceKind::MainScheduleOrder && old(self).main_schedule_order is Some
                ==> *final(self) == *old(self),
            kind == ResourceKind::MainScheduleOrder && old(self).main_schedule_order is None ==> {
                &&& final(self).main_schedule_order is Some
                &&& crate::main_schedule::is_default_order(final(self).main_schedule_order.unwrap())
                &&& *final(self) == (World {
                    main_schedule_order: final(self).main_schedule_order,
                    ..*old(self)
                })
            },
    {
        let tick = self.change_tick;
        match kind {
            ResourceKind::FrameCount => {
                if self.frame_count.is_none() {
                    self.frame_count = Some((FrameCount::default(), ComponentTicks::new(tick)));
                }
            },
            ResourceKind::Time => {
                if self.time.is_none() {
                    self.time = Some((Time::default(), ComponentTicks::new(tick)));
                }
            },
            ResourceKind::TimeUpdateStrategy => {
                if self.time_update_strategy.is_none() {
                    self.time_update_strategy = Some(
                        (TimeUpdateStrategy::default(), ComponentTicks::new(tick)),
                    );
                }
            },
            ResourceKind::MainScheduleOrder => {
                if self.main_schedule_order.is_none() {
                    self.main_schedule_order = Some(MainScheduleOrder::default());
                }
            },
        }
    }

    /// Registers an event type by its key; registering a key twice leaves
    /// the registry as it is.
    pub fn register_event_key(&mut self, key: u64)
        ensures
            old(self).event_keys@.contains(key) ==> *final(self) == *old(self),
            !old(self).event_keys@.contains(key) ==> final(self).event_keys@ == old(self).event_keys@.push(key) && *final(self) == (World {
                event_keys: final(self).event_keys,
                ..*old(self)
            }),
    {
        let mut i: usize = 0;
        while i < self.event_keys.len()
            invariant
                i <= self.event_keys@.len(),
                *self == *old(self),
                forall|j: int| 0 <= j < i ==> self.event_keys@[j] != key,
            decreases self.event_keys@.len() - i,
        {
            if self.event_keys[i] == key {
                proof {
                    assert(old(self).event_keys@.contains(key));
                }
                return ;
            }
            i += 1;
        }
        proof {
            assert(!old(self).event_keys@.contains(key)) by {
                if old(self).event_keys@.contains(key) {
                    let j = choose|j: int|
                        0 <= j < old(self).event_keys@.len() && old(self).event_keys@[j] == key;
                    assert(self.event_keys@[j] != key);
                }
            }
        }
        self.event_keys.push(key);
    }

    /// Whether an event type with the given key has been registered.
    pub fn contains_event_key(&self, key: u64) -> (r: bool)
        ensures
            r == self.event_keys@.contains(key),
    {
        let mut i: usize = 0;
        while i < self.event_keys.len()
            invariant
                i <= self.event_keys@.len(),
                forall|j: int| 0 <= j < i ==> self.event_keys@[j] != key,
            decreases self.event_keys@.len() - i,
        {
            if self.event_keys[i] == key {
                proof {
                    assert(self.event_keys@.contains(key));
                }
                return true;
            }
            i += 1;
        }
        proof {
            assert(!self.event_keys@.contains(key)) by {
                if self.event_keys@.contains(key) {
                    let j = choose|j: int|
                        0 <= j < self.event_keys@.len() && self.event_keys@[j] == key;
                    assert(self.event_keys@[j] != key);
                }
            }
        }
        false
    }

    /// The sweep, on every stored tick pair and bookkeeping tick: clamps
    /// each against the current counter value so that no tracked age exceeds
    /// [`MAX_CHANGE_AGE`]. Runs only once the counter has advanced at least
    /// [`CHECK_TICK_THRESHOLD`] past the previous pass; otherwise the world
    /// is left untouched. The sweep takes the whole world exclusively, so it
    /// never runs beside a read or write of tracked data.
    pub fn check_change_ticks(&mut self)
        ensures
            tick_distance(old(self).change_tick, old(self).last_check_tick)
                < CHECK_TICK_THRESHOLD ==> *final(self) == *old(self),
            tick_distance(old(self).change_tick, old(self).last_check_tick)
                >= CHECK_TICK_THRESHOLD ==> {
                let t = old(self).change_tick;
                &&& final(self).component_ticks@.len() == old(self).component_ticks@.len()
                &&& forall|i: int|
                    0 <= i < old(self).component_ticks@.len()
                        ==> #[trigger] final(self).component_ticks@[i] == (ComponentTicks {
                        added: old(self).component_ticks@[i].added.spec_check_tick(t),
                        changed: old(self).component_ticks@[i].changed.spec_check_tick(t),
                    })
                &&& final(self).system_ticks@.len() == old(self).system_ticks@.len()
                &&& forall|i: int|
                    0 <= i < old(self).system_ticks@.len() ==> #[trigger] final(self).system_ticks@[i] == old(self).system_ticks@[i].spec_check_tick(t)
                &&& final(self).frame_count == spec_swept_slot(old(self).frame_count, t)
                &&& final(self).time == spec_swept_slot(old(self).time, t)
                &&& final(self).time_update_strategy == spec_swept_slot(
                    old(self).time_update_strategy,
                    t,
                )
                &&& final(self).last_check_tick == t
                &&& *final(self) == (World {
                    component_ticks: final(self).component_ticks,
                    system_ticks: final(self).system_ticks,
                    frame_count: final(self).frame_count,
                    time: final(self).time,
                    time_update_strategy: final(self).time_update_strategy,
                    last_check_tick: t,
                    ..*old(self)
                })
            },
            tick_distance(old(self).change_tick, old(self).last_check_tick)
                >= CHECK_TICK_THRESHOLD ==> forall|i: int|
                0 <= i < final(self).component_ticks@.len() ==> tick_distance(
                    old(self).change_tick,
                    #[trigger] final(self).component_ticks@[i].added,
                ) <= MAX_CHANGE_AGE && tick_distance(
                    old(self).change_tick,
                    final(self).component_ticks@[i].changed,
                ) <= MAX_CHANGE_AGE,
    {
        let tick = self.change_tick;
        if tick.relative_to(self.last_check_tick).get() < CHECK_TICK_THRESHOLD {
            return ;
        }
        let mut i: usize = 0;
        while i < self.component_ticks.len()
            invariant
                i <= self.component_ticks@.len(),
                self.component_ticks@.len() == old(self).component_ticks@.len(),
                tick == old(self).change_tick,
                forall|j: int|
                    0 <= j < i ==> #[trigger] self.component_ticks@[j] == (ComponentTicks {
                        added: old(self).component_ticks@[j].added.spec_check_tick(tick),
                        changed: old(self).component_ticks@[j].changed.spec_check_tick(tick),
                    }),
                forall|j: int|
                    i <= j < self.component_ticks@.len() ==> #[trigger] self.component_ticks@[j]
                        == old(self).component_ticks@[j],
                self.system_ticks@ == old(self).system_ticks@,
                self.frame_count == old(self).frame_count,
                self.time == old(self).time,
                self.time_update_strategy == old(self).time_update_strategy,
                self.change_tick == old(self).change_tick,
                self.last_change_tick == old(self).last_change_tick,
                self.last_check_tick == old(self).last_check_tick,
                self.schedules == old(self).schedules,
                self.main_schedule_order == old(self).main_schedule_order,
                self.event_keys == old(self).event_keys,
                self.app_exit_requested == old(self).app_exit_requested,
            decreases self.component_ticks@.len() - i,
        {
            let mut pair = self.component_ticks[i];
            pair.check_ticks(tick);
            self.component_ticks.set(i, pair);
            i += 1;
        }
        let mut k: usize = 0;
        while k < self.system_ticks.len()
            invariant
                k <= self.system_ticks@.len(),
                self.system_ticks@.len() == old(self).system_ticks@.len(),
                tick == old(self).change_tick,
                forall|j: int|
                    0 <= j < k ==> #[trigger] self.system_ticks@[j] == old(self).system_ticks@[j].spec_check_tick(tick),
                forall|j: int|
                    k <= j < self.system_ticks@.len() ==> #[trigger] self.system_ticks@[j] == old(self).system_ticks@[j],
                self.component_ticks@.len() == old(self).component_ticks@.len(),
                forall|j: int|
                    0 <= j < self.component_ticks@.len() ==> #[trigger] self.component_ticks@[j]
                        == (ComponentTicks {
                        added: old(self).component_ticks@[j].added.spec_check_tick(tick),
                        changed: old(self).component_ticks@[j].changed.spec_check_tick(tick),
                    }),
                self.frame_count == old(self).frame_count,
                self.time == old(self).time,
                self.time_update_strategy == old(self).time_update_strategy,
                self.change_tick == old(self).change_tick,
                self.last_change_tick == old(self).last_change_tick,
                self.last_check_tick == old(self).last_check_tick,
                self.schedules == old(self).schedules,
                self.main_schedule_order == old(self).main_schedule_order,
                self.event_keys == old(self).event_keys,
                self.app_exit_requested == old(self).app_exit_requested,
            decreases self.system_ticks@.len() - k,
        {
            let mut t = self.system_ticks[k];
            t.check_tick(tick);
            self.system_ticks.set(k, t);
            k += 1;
        }
        if let Some((v, mut pair)) = self.frame_count.take() {
            pair.check_ticks(tick);
            self.frame_count = Some((v, pair));
        }
        if let Some((v, mut pair)) = self.time.take() {
            pair.check_ticks(tick);
            self.time = Some((v, pair));
        }
        if let Some((v, mut pair)) = self.time_update_strategy.take() {
            pair.check_ticks(tick);
            self.time_update_strategy = Some((v, pair));
        }
        self.last_check_tick = tick;
    }
}


/// What one system leaves in the world when it runs inside a phase
/// schedule. A system whose resource slot is empty does not run. A nested
/// main-runner finds the schedule order taken out for the outer main pass,
/// so it leaves the world untouched.
pub open spec fn spec_apply_basic_action(w: World, a: SystemAction) -> World {
    match a {
        SystemAction::RunMain => w,
        SystemAction::TickTaskPools => w,
        SystemAction::UpdateFrameCount => match w.frame_count {
            Some(pair) => World {
                frame_count: Some(
                    (
                        (FrameCount(vstd::wrapping::u32_specs::wrapping_add(pair.0.0, 1))),
                        (ComponentTicks { added: pair.1.added, changed: w.change_tick }),
                    ),
                ),
                ..w
            },
            None => w,
        },
        SystemAction::AdvanceTime => match (w.time, w.time_update_strategy) {
            (Some(tp), Some(sp)) => World {
                time: Some(
                    (
                        spec_advanced_time(tp.0, sp.0),
                        (ComponentTicks { added: tp.1.added, changed: w.change_tick }),
                    ),
                ),
                ..w
            },
            _ => w,
        },
    }
}

/// What a list of systems leaves in the world, run left to right.
pub open spec fn spec_run_actions(w: World, actions: Seq<SystemAction>) -> World
    decreases actions.len(),
{
    if actions.len() == 0 {
        w
    } else {
        spec_apply_basic_action(spec_run_actions(w, actions.drop_last()), actions.last())
    }
}

/// What running the schedule stored under `key` leaves in the world, with
/// every system treated as a phase system; a missing schedule runs nothing.
pub open spec fn spec_run_label(w: World, key: u64) -> World {
    if w.schedules.spec_contains(key) {
        spec_run_actions(w, w.schedules.entries@[w.schedules.spec_index_of(key)].systems@)
    } else {
        w
    }
}

/// What running a list of phase schedules leaves in the world.
pub open spec fn spec_run_labels(w: World, labels: Seq<InternedScheduleLabel>) -> World
    decreases labels.len(),
{
    if labels.len() == 0 {
        w
    } else {
        spec_run_label(spec_run_labels(w, labels.drop_last()), labels.last().key)
    }
}

/// What the main pass leaves in the world: the schedule order is taken out,
/// its phase schedules run in order, and the order is put back.
pub open spec fn spec_run_main_order(w: World) -> World {
    match w.main_schedule_order {
        None => w,
        Some(order) => World {
            main_schedule_order: Some(order),
            ..spec_run_labels((World { main_schedule_order: None, ..w }), order.labels@)
        },
    }
}

/// What one system of a top-level schedule leaves in the world: a
/// main-runner expands into the main pass, everything else is a phase
/// system.
pub open spec fn spec_apply_top_action(w: World, a: SystemAction) -> World {
    match a {
        SystemAction::RunMain => spec_run_main_order(w),
        _ => spec_apply_basic_action(w, a),
    }
}

/// What a top-level list of systems leaves in the world.
pub open spec fn spec_run_top_actions(w: World, actions: Seq<SystemAction>) -> World
    decreases actions.len(),
{
    if actions.len() == 0 {
        w
    } else {
        spec_apply_top_action(spec_run_top_actions(w, actions.drop_last()), actions.last())
    }
}

/// What running the schedule stored under `key` leaves in the world; a
/// missing schedule runs nothing.
pub open spec fn spec_run_schedule(w: World, key: u64) -> World {
    if w.schedules.spec_contains(key) {
        spec_run_top_actions(w, w.schedules.entries@[w.schedules.spec_index_of(key)].systems@)
    } else {
        w
    }
}

/// Running systems only ever moves the frame counter and the clock:
/// everything else in the world comes through unchanged.
pub proof fn lemma_run_actions_frame(w: World, actions: Seq<SystemAction>)
    ensures
        spec_run_actions(w, actions) == (World {
            frame_count: spec_run_actions(w, actions).frame_count,
            time: spec_run_actions(w, actions).time,
            ..w
        }),
    decreases actions.len(),
{
    if actions.len() > 0 {
        lemma_run_actions_frame(w, actions.drop_last());
    }
}

/// As [`lemma_run_actions_frame`], lifted to one phase schedule.
pub proof fn lemma_run_label_frame(w: World, key: u64)
    ensures
        spec_run_label(w, key) == (World {
            frame_count: spec_run_label(w, key).frame_count,
            time: spec_run_label(w, key).time,
            ..w
        }),
{
    if w.schedules.spec_contains(key) {
        lemma_run_actions_frame(w, w.schedules.entries@[w.schedules.spec_index_of(key)].systems@);
    }
}

/// As [`lemma_run_actions_frame`], lifted to a list of phase schedules.
pub proof fn lemma_run_labels_frame(w: World, labels: Seq<InternedScheduleLabel>)
    ensures
        spec_run_labels(w, labels) == (World {
            frame_count: spec_run_labels(w, labels).frame_count,
            time: spec_run_labels(w, labels).time,
            ..w
        }),
    decreases labels.len(),
{
    if labels.len() > 0 {
        lemma_run_labels_frame(w, labels.drop_last());
        lemma_run_label_frame(spec_run_labels(w, labels.drop_last()), labels.last().key);
    }
}

/// As [`lemma_run_actions_frame`], lifted to a top-level list of systems.
pub proof fn lemma_run_top_actions_frame(w: World, actions: Seq<SystemAction>)
    ensures
        spec_run_top_actions(w, actions) == (World {
            frame_count: spec_run_top_actions(w, actions).frame_count,
            time: spec_run_top_actions(w, actions).time,
            ..w
        }),
    decreases actions.len(),
{
    if actions.len() > 0 {
        lemma_run_top_actions_frame(w, actions.drop_last());
        let w1 = spec_run_top_actions(w, actions.drop_last());
        if actions.last() is RunMain {
            match w1.main_schedule_order {
                None => {},
                Some(order) => {
                    lemma_run_labels_frame(
                        (World { main_schedule_order: None, ..w1 }),
                        order.labels@,
                    );
                },
            }
        }
    }
}

impl World {
    /// Runs one phase system against this world.
    fn apply_leaf_action(&mut self, action: SystemAction)
        ensures
            *final(self) == spec_apply_basic_action(*old(self), action),
    {
        match action {
            SystemAction::RunMain => {},
            SystemAction::TickTaskPools => {},
            SystemAction::UpdateFrameCount => {
                let taken = self.frame_count.take();
                match taken {
                    Some((count, mut cells)) => {
                        let mut value = count;
                        let last_run = self.last_change_tick;
                        let this_run = self.change_tick;
                        let borrowed = TicksMut::from_tick_cells(&mut cells, last_run, this_run);
                        update_frame_count(ResMut { value: &mut value, ticks: borrowed });
                        self.frame_count = Some((value, cells));
                    },
                    None => {},
                }
            },
            SystemAction::AdvanceTime => {
                if self.time.is_some() && self.time_update_strategy.is_some() {
                    let taken = self.time.take();
                    match taken {
                        Some((clock, mut cells)) => {
                            let mut value = clock;
                            let last_run = self.last_change_tick;
                            let this_run = self.change_tick;
                            let strategy_slot = self.time_update_strategy.as_ref().unwrap();
                            let strategy = Res {
                                value: &strategy_slot.0,
                                ticks: Ticks::from_tick_cells(&strategy_slot.1, last_run, this_run),
                            };
                            let borrowed = TicksMut::from_tick_cells(
                                &mut cells,
                                last_run,
                                this_run,
                            );
                            time_system(ResMut { value: &mut value, ticks: borrowed }, strategy);
                            self.time = Some((value, cells));
                        },
                        None => {},
                    }
                }
            },
        }
    }

    /// Runs the schedule stored under `label` with every system treated as
    /// a phase system; a missing schedule runs nothing.
    fn run_label_leaf(&mut self, label: InternedScheduleLabel)
        requires
            old(self).wf(),
        ensures
            *final(self) == spec_run_label(*old(self), label.key),
            final(self).wf(),
    {
        let position = self.schedules.index_of(label);
        match position {
            None => {},
            Some(si) => {
                let ghost start = *self;
                let ghost actions = self.schedules.entries@[si as int].systems@;
                let n = self.schedules.entries[si].systems.len();
                let mut j: usize = 0;
                while j < n
                    invariant
                        j <= n,
                        n == actions.len(),
                        start.wf(),
                        si < start.schedules.entries@.len(),
                        actions == start.schedules.entries@[si as int].systems@,
                        *self == spec_run_actions(start, actions.take(j as int)),
                    decreases n - j,
                {
                    proof {
                        lemma_run_actions_frame(start, actions.take(j as int));
                    }
                    let a = self.schedules.entries[si].systems[j];
                    self.apply_leaf_action(a);
                    proof {
                        assert(actions.take(j + 1).drop_last() =~= actions.take(j as int));
                        assert(actions.take(j + 1).last() == actions[j as int]);
                    }
                    j += 1;
                }
                proof {
                    assert(actions.take(n as int) =~= actions);
                    lemma_run_actions_frame(start, actions);
                }
            },
        }
    }

    /// The main pass: takes the schedule order out, runs its phase
    /// schedules in order, and puts the order back. With no order stored,
    /// nothing runs.
    pub(crate) fn run_main_order(&mut self)
        requires
            old(self).wf(),
        ensures
            *final(self) == spec_run_main_order(*old(self)),
            final(self).wf(),
    {
        let taken = self.main_schedule_order.take();
        match taken {
            None => {},
            Some(order) => {
                let ghost start = *self;
                let n = order.labels.len();
                let mut k: usize = 0;
                while k < n
                    invariant
                        k <= n,
                        n == order.labels@.len(),
                        start.wf(),
                        *self == spec_run_labels(start, order.labels@.take(k as int)),
                    decreases n - k,
                {
                    proof {
                        lemma_run_labels_frame(start, order.labels@.take(k as int));
                    }
                    let label = order.labels[k];
                    self.run_label_leaf(label);
                    proof {
                        assert(order.labels@.take(k + 1).drop_last() =~= order.labels@.take(
                            k as int,
                        ));
                        assert(order.labels@.take(k + 1).last() == order.labels@[k as int]);
                    }
                    k += 1;
                }
                proof {
                    assert(order.labels@.take(n as int) =~= order.labels@);
                    lemma_run_labels_frame(start, order.labels@);
                }
                self.main_schedule_order = Some(order);
            },
        }
    }

    /// Runs the schedule stored under `label` against this world; a missing
    /// schedule runs nothing. A main-runner system found here expands into
    /// the main pass.
    pub fn run_schedule(&mut self, label: InternedScheduleLabel)
        requires
            old(self).wf(),
        ensures
            *final(self) == spec_run_schedule(*old(self), label.key),
            final(self).wf(),
    {
        let position = self.schedules.index_of(label);
        match position {
            None => {},
            Some(si) => {
                let ghost start = *self;
                let ghost actions = self.schedules.entries@[si as int].systems@;
                let n = self.schedules.entries[si].systems.len();
                let mut j: usize = 0;
                while j < n
                    invariant
                        j <= n,
                        n == actions.len(),
                        start.wf(),
                        si < start.schedules.entries@.len(),
                        actions == start.schedules.entries@[si as int].systems@,
                        *self == spec_run_top_actions(start, actions.take(j as int)),
                    decreases n - j,
                {
                    proof {
                        lemma_run_top_actions_frame(start, actions.take(j as int));
                    }
                    let a = self.schedules.entries[si].systems[j];
                    match a {
                        SystemAction::RunMain => {
                            self.run_main_order();
                        },
                        _ => {
                            self.apply_leaf_action(a);
                        },
                    }
                    proof {
                        assert(actions.take(j + 1).drop_last() =~= actions.take(j as int));
                        assert(actions.take(j + 1).last() == actions[j as int]);
                    }
                    j += 1;
                }
                proof {
                    assert(actions.take(n as int) =~= actions);
                    lemma_run_top_actions_frame(start, actions);
                }
            },
        }
    }
}

/// The tick pair of the frame-count slot; meaningful only when the slot is
/// occupied.
pub open spec fn spec_frame_ticks(w: World) -> ComponentTicks {
    w.frame_count.unwrap().1
}

/// The tick pair of the clock slot; meaningful only when the slot is
/// occupied.
pub open spec fn spec_time_ticks(w: World) -> ComponentTicks {
    w.time.unwrap().1
}

/// The tick pair of the strategy slot; meaningful only when the slot is
/// occupied.
pub open spec fn spec_strategy_ticks(w: World) -> ComponentTicks {
    w.time_update_strategy.unwrap().1
}

/// The tick pair an insertion leaves on a slot: an occupied slot keeps its
/// insertion tick and is stamped changed, an empty one starts fresh.
pub open spec fn spec_insert_ticks(occupied: bool, previous: ComponentTicks, tick: Tick) -> ComponentTicks {
    if occupied {
        ComponentTicks { added: previous.added, changed: tick }
    } else {
        ComponentTicks { added: tick, changed: tick }
    }
}

/// What the sweep leaves of one optional resource slot.
pub open spec fn spec_swept_slot<V>(slot: Option<(V, ComponentTicks)>, t: Tick) -> Option<
    (V, ComponentTicks),
> {
    match slot {
        None => None,
        Some((v, pair)) => Some(
            (
                v,
                (ComponentTicks {
                    added: pair.added.spec_check_tick(t),
                    changed: pair.changed.spec_check_tick(t),
                }),
            ),
        ),
    }
}

} // verus!
