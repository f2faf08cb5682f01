//! Schedules: named lists of systems that a world runs in order.

use vstd::prelude::*;

verus! {

/// An interned schedule name: a stable key standing for one schedule label.
#[derive(Debug, Clone, Copy, PartialEq, Eq, Hash, Structural)]
pub struct InternedScheduleLabel {
    pub key: u64,
}

/// A name for a schedule. Every label type maps to one fixed key; two label
/// types must not share a key.
pub trait ScheduleLabel {
    /// The key this label type interns to. An implementation outside this
    /// crate that leaves the default says nothing about its key.
    open spec fn spec_key() -> u64 {
        arbitrary()
    }

    /// Interns this label to its key.
    fn intern(&self) -> (l: InternedScheduleLabel)
        ensures
            l.key == Self::spec_key(),
    ;
}

/// What one system does when it runs. Systems the library itself installs
/// are listed here; the work of each is carried out by the world dispatcher.
#[derive(Debug, Clone, Copy, PartialEq, Eq, Structural)]
pub enum SystemAction {
    /// Runs the sub-schedules listed in the world's main schedule order.
    RunMain,
    /// Advances the frame counter by one, wrapping, and stamps it changed.
    UpdateFrameCount,
    /// A synchronization point for the host's task pools. The pools live
    /// outside the world, so the world itself is left untouched; the entry
    /// keeps the pool upkeep ordered among the other systems.
    TickTaskPools,
    /// Advances the virtual time resource as its update strategy directs.
    AdvanceTime,
}

/// How sure the schedule should be about ambiguous system pairs.
#[derive(Debug, Clone, Copy, PartialEq, Eq, Structural)]
pub enum LogLevel {
    /// Occurrences are ignored.
    Ignore,
    /// Occurrences are reported.
    Warn,
    /// Occurrences fail the schedule build.
    Error,
}

/// Settings that shape how a schedule is built.
#[derive(Debug, Clone, Copy, PartialEq, Eq, Structural)]
pub struct ScheduleBuildSettings {
    /// How to treat systems with conflicting access but indeterminate order.
    pub ambiguity_detection: LogLevel,
}

impl Default for ScheduleBuildSettings {
    fn default() -> (r: ScheduleBuildSettings)
        ensures
            r.ambiguity_detection == LogLevel::Ignore,
    {
        ScheduleBuildSettings { ambiguity_detection: LogLevel::Ignore }
    }
}

/// How a schedule executes its systems.
#[derive(Debug, Clone, Copy, PartialEq, Eq, Structural)]
pub enum ExecutorKind {
    /// All systems run on the calling thread, in order.
    SingleThreaded,
    /// Systems may be handed to worker threads by the host executor.
    MultiThreaded,
}

/// One schedule: a label, the systems added to it, and its build settings.
#[derive(Debug, Clone, PartialEq, Eq)]
pub struct Schedule {
    pub label: InternedScheduleLabel,
    pub systems: Vec<SystemAction>,
    /// Keys of the system sets configured on this schedule.
    pub configured_sets: Vec<u64>,
    /// Pairs of system-set keys whose ambiguities are to be ignored.
    pub ignored_ambiguities: Vec<(u64, u64)>,
    pub executor: ExecutorKind,
    pub settings: ScheduleBuildSettings,
}

impl Schedule {
    /// Creates an empty schedule under the given label.
    pub fn new(label: InternedScheduleLabel) -> (s: Schedule)
        ensures
            s.label == label,
            s.systems@ == Seq::<SystemAction>::empty(),
            s.configured_sets@ == Seq::<u64>::empty(),
            s.ignored_ambiguities@ == Seq::<(u64, u64)>::empty(),
            s.executor == ExecutorKind::MultiThreaded,
            s.settings.ambiguity_detection == LogLevel::Ignore,
    {
        Schedule {
            label,
            systems: Vec::new(),
            configured_sets: Vec::new(),
            ignored_ambiguities: Vec::new(),
            executor: ExecutorKind::MultiThreaded,
            settings: ScheduleBuildSettings { ambiguity_detection: LogLevel::Ignore },
        }
    }

    /// Appends a system to this schedule.
    pub fn add_systems(&mut self, system: SystemAction)
        ensures
            final(self).systems@ == old(self).systems@.push(system),
            final(self).label == old(self).label,
            final(self).configured_sets == old(self).configured_sets,
            final(self).ignored_ambiguities == old(self).ignored_ambiguities,
            final(self).executor == old(self).executor,
            final(self).settings == old(self).settings,
    {
        self.systems.push(system);
    }

    /// Registers a system set on this schedule.
    pub fn configure_sets(&mut self, set: u64)
        ensures
            final(self).configured_sets@ == old(self).configured_sets@.push(set),
            final(self).label == old(self).label,
            final(self).systems == old(self).systems,
            final(self).ignored_ambiguities == old(self).ignored_ambiguities,
            final(self).executor == old(self).executor,
            final(self).settings == old(self).settings,
    {
        self.configured_sets.push(set);
    }

    /// Records that ambiguities between the two system sets are to be
    /// ignored when this schedule is built.
    pub fn ignore_ambiguity(&mut self, a: u64, b: u64)
        ensures
            final(self).ignored_ambiguities@ == old(self).ignored_ambiguities@.push((a, b)),
            final(self).label == old(self).label,
            final(self).systems == old(self).systems,
            final(self).configured_sets == old(self).configured_sets,
            final(self).executor == old(self).executor,
            final(self).settings == old(self).settings,
    {
        self.ignored_ambiguities.push((a, b));
    }

    /// Chooses how this schedule executes its systems.
    pub fn set_executor_kind(&mut self, executor: ExecutorKind)
        ensures
            final(self).executor == executor,
            final(self).label == old(self).label,
            final(self).systems == old(self).systems,
            final(self).configured_sets == old(self).configured_sets,
            final(self).ignored_ambiguities == old(self).ignored_ambiguities,
            final(self).settings == old(self).settings,
    {
        self.executor = executor;
    }

    /// Applies the given build settings to this schedule.
    pub fn set_build_settings(&mut self, settings: ScheduleBuildSettings)
        ensures
            final(self).settings == settings,
            final(self).label == old(self).label,
            final(self).systems == old(self).systems,
            final(self).configured_sets == old(self).configured_sets,
            final(self).ignored_ambiguities == old(self).ignored_ambiguities,
            final(self).executor == old(self).executor,
    {
        self.settings = settings;
    }
}

/// All schedules of one world, each stored once under its label.
#[derive(Debug, Clone, PartialEq, Eq)]
pub struct Schedules {
    pub entries: Vec<Schedule>,
}

impl Schedules {
    /// Each label appears at most once.
    pub open spec fn wf(&self) -> bool {
        forall|i: int, j: int|
            0 <= i < j < self.entries@.len() ==> #[trigger] self.entries@[i].label.key
                != #[trigger] self.entries@[j].label.key
    }

    /// Whether a schedule with the given label key is stored.
    pub open spec fn spec_contains(&self, key: u64) -> bool {
        exists|i: int| 0 <= i < self.entries@.len() && #[trigger] self.entries@[i].label.key == key
    }

    /// The index of the schedule with the given label key.
    pub open spec fn spec_index_of(&self, key: u64) -> int {
        choose|i: int| 0 <= i < self.entries@.len() && #[trigger] self.entries@[i].label.key == key
    }

    /// Creates an empty schedule store.
    pub fn new() -> (s: Schedules)
        ensures
            s.entries@ == Seq::<Schedule>::empty(),
            s.wf(),
    {
        Schedules { entries: Vec::new() }
    }

    /// Returns the position of the schedule under `label`, if any.
    pub fn index_of(&self, label: InternedScheduleLabel) -> (r: Option<usize>)
        requires
            self.wf(),
        ensures
            match r {
                Some(i) => i < self.entries@.len() && self.entries@[i as int].label == label && i
                    == self.spec_index_of(label.key),
                None => !self.spec_contains(label.key),
            },
    {
        let mut i: usize = 0;
        while i < self.entries.len()
            invariant
                self.wf(),
                i <= self.entries@.len(),
                forall|j: int| 0 <= j < i ==> #[trigger] self.entries@[j].label.key != label.key,
            decreases self.entries@.len() - i,
        {
            if self.entries[i].label.key == label.key {
                proof {
                    assert(self.entries@[i as int].label == label);
                    assert(self.spec_contains(label.key));
                    let k = self.spec_index_of(label.key);
                    assert(0 <= k < self.entries@.len() && self.entries@[k].label.key
                        == label.key);
                    if k < i as int {
                        assert(self.entries@[k].label.key != self.entries@[i as int].label.key);
                    }
                    if k > i as int {
                        assert(self.entries@[i as int].label.key != self.entries@[k].label.key);
                    }
                    assert(k == i);
                }
                return Some(i);
            }
            i += 1;
        }
        None
    }

    /// Returns whether a schedule is stored under `label`.
    pub fn contains(&self, label: InternedScheduleLabel) -> (r: bool)
        requires
            self.wf(),
        ensures
            r == self.spec_contains(label.key),
    {
        self.index_of(label).is_some()
    }

    /// Stores `schedule` under its label, replacing any schedule already
    /// stored under the same label.
    pub fn insert(&mut self, schedule: Schedule)
        requires
            old(self).wf(),
        ensures
            final(self).wf(),
            final(self).spec_contains(schedule.label.key),
            if old(self).spec_contains(schedule.label.key) {
                final(self).entries@ == old(self).entries@.update(
                    old(self).spec_index_of(schedule.label.key),
                    schedule,
                )
            } else {
                final(self).entries@ == old(self).entries@.push(schedule)
            },
    {
        let position = self.index_of(schedule.label);
        match position {
            Some(i) => {
                self.entries.set(i, schedule);
                proof {
                    assert(final(self).entries@[i as int].label.key == schedule.label.key);
                }
            },
            None => {
                self.entries.push(schedule);
                proof {
                    let n = old(self).entries@.len() as int;
                    assert(final(self).entries@[n].label.key == schedule.label.key);
                }
            },
        }
    }

    /// Returns the schedule stored under `label`, if any.
    pub fn get(&self, label: InternedScheduleLabel) -> (r: Option<&Schedule>)
        requires
            self.wf(),
        ensures
            match r {
                Some(s) => self.spec_contains(label.key) && *s == self.entries@[self.spec_index_of(
                    label.key,
                )],
                None => !self.spec_contains(label.key),
            },
    {
        match self.index_of(label) {
            Some(i) => Some(&self.entries[i]),
            None => None,
        }
    }
}

impl Schedules {
    /// The schedule stored under `key`; meaningful only when one is stored.
    pub open spec fn spec_entry(&self, key: u64) -> Schedule {
        self.entries@[self.spec_index_of(key)]
    }

    /// Returns the schedule stored under `label` for writing, if any. The
    /// store stays well-formed as long as the caller leaves the label alone.
    pub fn get_mut(&mut self, label: InternedScheduleLabel) -> (r: Option<&mut Schedule>)
        requires
            old(self).wf(),
        ensures
            match r {
                None => !old(self).spec_contains(label.key) && *final(self) == *old(self),
                Some(s) => {
                    &&& old(self).spec_contains(label.key)
                    &&& *s == old(self).spec_entry(label.key)
                    &&& final(self).entries@ == old(self).entries@.update(
                        old(self).spec_index_of(label.key),
                        *final(s),
                    )
                },
            },
    {
        let position = self.index_of(label);
        match position {
            Some(i) => Some(&mut self.entries[i]),
            None => None,
        }
    }

    /// Appends `system` to the schedule under `label`, creating the
    /// schedule first when none is stored.
    pub fn add_system_to(&mut self, label: InternedScheduleLabel, system: SystemAction)
        requires
            old(self).wf(),
        ensures
            final(self).wf(),
            spec_system_added(*old(self), *final(self), label.key, system),
    {
        let position = self.index_of(label);
        match position {
            Some(i) => {
                let entry = &mut self.entries[i];
                entry.add_systems(system);
                proof {
                    lemma_index_unique(*old(self), label.key, i as int);
                    let e = self.entries@[i as int];
                    assert(self.entries@ =~= old(self).entries@.update(i as int, e));
                    assert(spec_upserted(*old(self), *self, label.key, e));
                    assert(e.label == old(self).entries@[i as int].label);
                    assert(old(self).spec_entry(label.key) == old(self).entries@[i as int]);
                    assert(e.systems@ == old(self).spec_entry(label.key).systems@.push(system));
                    assert(spec_system_added(*old(self), *self, label.key, system));
                    assert forall|p: int, q: int|
                        0 <= p < q < self.entries@.len() implies self.entries@[p].label.key
                        != self.entries@[q].label.key by {
                        assert(old(self).entries@[p].label.key != old(
                            self,
                        ).entries@[q].label.key);
                    }
                }
            },
            None => {
                let mut fresh = Schedule::new(label);
                fresh.add_systems(system);
                self.entries.push(fresh);
                proof {
                    let n = old(self).entries@.len() as int;
                    let e = self.entries@[n];
                    assert(self.entries@ =~= old(self).entries@.push(e));
                    assert(e.label.key == label.key);
                    assert(spec_upserted(*old(self), *self, label.key, e));
                    assert forall|p: int, q: int|
                        0 <= p < q < self.entries@.len() implies self.entries@[p].label.key
                        != self.entries@[q].label.key by {
                        if q < n {
                            assert(old(self).entries@[p].label.key != old(
                                self,
                            ).entries@[q].label.key);
                        } else {
                            assert(self.entries@[p].label.key != label.key);
                        }
                    }
                }
            },
        }
    }

    /// Registers the system set `set` on the schedule under `label`,
    /// creating the schedule first when none is stored.
    pub fn add_set_to(&mut self, label: InternedScheduleLabel, set: u64)
        requires
            old(self).wf(),
        ensures
            final(self).wf(),
            spec_set_added(*old(self), *final(self), label.key, set),
    {
        let position = self.index_of(label);
        match position {
            Some(i) => {
                let entry = &mut self.entries[i];
                entry.configure_sets(set);
                proof {
                    lemma_index_unique(*old(self), label.key, i as int);
                    let e = self.entries@[i as int];
                    assert(self.entries@ =~= old(self).entries@.update(i as int, e));
                    assert(spec_upserted(*old(self), *self, label.key, e));
                    assert(e.label == old(self).entries@[i as int].label);
                    assert(old(self).spec_entry(label.key) == old(self).entries@[i as int]);
                    assert(e.configured_sets@ == old(self).spec_entry(label.key).configured_sets@.push(set));
                    assert(spec_set_added(*old(self), *self, label.key, set));
                    assert forall|p: int, q: int|
                        0 <= p < q < self.entries@.len() implies self.entries@[p].label.key
                        != self.entries@[q].label.key by {
                        assert(old(self).entries@[p].label.key != old(
                            self,
                        ).entries@[q].label.key);
                    }
                }
            },
            None => {
                let mut fresh = Schedule::new(label);
                fresh.configure_sets(set);
                self.entries.push(fresh);
                proof {
                    let n = old(self).entries@.len() as int;
                    let e = self.entries@[n];
                    assert(self.entries@ =~= old(self).entries@.push(e));
                    assert(e.label.key == label.key);
                    assert(spec_upserted(*old(self), *self, label.key, e));
                    assert forall|p: int, q: int|
                        0 <= p < q < self.entries@.len() implies self.entries@[p].label.key
                        != self.entries@[q].label.key by {
                        if q < n {
                            assert(old(self).entries@[p].label.key != old(
                                self,
                            ).entries@[q].label.key);
                        } else {
                            assert(self.entries@[p].label.key != label.key);
                        }
                    }
                }
            },
        }
    }

    /// Records an ignored ambiguity between `a` and `b` on the schedule
    /// under `label`, creating the schedule first when none is stored.
    pub fn add_ambiguity_to(&mut self, label: InternedScheduleLabel, a: u64, b: u64)
        requires
            old(self).wf(),
        ensures
            final(self).wf(),
            spec_ambiguity_added(*old(self), *final(self), label.key, a, b),
    {
        let position = self.index_of(label);
        match position {
            Some(i) => {
                let entry = &mut self.entries[i];
                entry.ignore_ambiguity(a, b);
                proof {
                    lemma_index_unique(*old(self), label.key, i as int);
                    let e = self.entries@[i as int];
                    assert(self.entries@ =~= old(self).entries@.update(i as int, e));
                    assert(spec_upserted(*old(self), *self, label.key, e));
                    assert(e.label == old(self).entries@[i as int].label);
                    assert(old(self).spec_entry(label.key) == old(self).entries@[i as int]);
                    assert(e.ignored_ambiguities@ == old(self).spec_entry(label.key).ignored_ambiguities@.push((a, b)));
                    assert(spec_ambiguity_added(*old(self), *self, label.key, a, b));
                    assert forall|p: int, q: int|
                        0 <= p < q < self.entries@.len() implies self.entries@[p].label.key
                        != self.entries@[q].label.key by {
                        assert(old(self).entries@[p].label.key != old(
                            self,
                        ).entries@[q].label.key);
                    }
                }
            },
            None => {
                let mut fresh = Schedule::new(label);
                fresh.ignore_ambiguity(a, b);
                self.entries.push(fresh);
                proof {
                    let n = old(self).entries@.len() as int;
                    let e = self.entries@[n];
                    assert(self.entries@ =~= old(self).entries@.push(e));
                    assert(e.label.key == label.key);
                    assert(spec_upserted(*old(self), *self, label.key, e));
                    assert forall|p: int, q: int|
                        0 <= p < q < self.entries@.len() implies self.entries@[p].label.key
                        != self.entries@[q].label.key by {
                        if q < n {
                            assert(old(self).entries@[p].label.key != old(
                                self,
                            ).entries@[q].label.key);
                        } else {
                            assert(self.entries@[p].label.key != label.key);
                        }
                    }
                }
            },
        }
    }

    /// Stores an empty schedule under `label` when none is stored yet; a
    /// stored schedule is left untouched.
    pub fn init_label(&mut self, label: InternedScheduleLabel)
        requires
            old(self).wf(),
        ensures
            final(self).wf(),
            old(self).spec_contains(label.key) ==> *final(self) == *old(self),
            !old(self).spec_contains(label.key) ==> exists|e: Schedule|
                {
                    &&& final(self).entries@ == old(self).entries@.push(e)
                    &&& e.label == label
                    &&& e.systems@ == Seq::<SystemAction>::empty()
                    &&& e.configured_sets@ == Seq::<u64>::empty()
                    &&& e.ignored_ambiguities@ == Seq::<(u64, u64)>::empty()
                    &&& e.executor == ExecutorKind::MultiThreaded
                    &&& e.settings.ambiguity_detection == LogLevel::Ignore
                },
    {
        if !self.contains(label) {
            self.insert(Schedule::new(label));
        }
    }

    /// Applies `settings` to every stored schedule.
    pub fn configure_schedules(&mut self, settings: ScheduleBuildSettings)
        requires
            old(self).wf(),
        ensures
            final(self).wf(),
            final(self).entries@.len() == old(self).entries@.len(),
            forall|i: int|
                0 <= i < old(self).entries@.len() ==> #[trigger] final(self).entries@[i]
                    == (Schedule { settings, ..old(self).entries@[i] }),
    {
        let mut i: usize = 0;
        while i < self.entries.len()
            invariant
                i <= self.entries@.len(),
                self.entries@.len() == old(self).entries@.len(),
                forall|j: int|
                    0 <= j < i ==> #[trigger] self.entries@[j] == (Schedule {
                        settings,
                        ..old(self).entries@[j]
                    }),
                forall|j: int|
                    i <= j < self.entries@.len() ==> #[trigger] self.entries@[j] == old(
                        self,
                    ).entries@[j],
            decreases self.entries@.len() - i,
        {
            let entry = &mut self.entries[i];
            entry.set_build_settings(settings);
            i += 1;
        }
        proof {
            assert forall|i: int, j: int| 0 <= i < j < self.entries@.len() implies self.entries@[i].label.key
                != self.entries@[j].label.key by {
                assert(old(self).entries@[i].label.key != old(self).entries@[j].label.key);
            }
        }
    }
}

/// `i` is the position of `key` in a well-formed store, so it is the
/// position the store's own index finds.
pub proof fn lemma_index_unique(s: Schedules, key: u64, i: int)
    requires
        s.wf(),
        0 <= i < s.entries@.len(),
        s.entries@[i].label.key == key,
    ensures
        s.spec_contains(key),
        s.spec_index_of(key) == i,
{
    assert(s.spec_contains(key));
    let k = s.spec_index_of(key);
    assert(0 <= k < s.entries@.len() && s.entries@[k].label.key == key);
    if k < i {
        assert(s.entries@[k].label.key != s.entries@[i].label.key);
    }
    if k > i {
        assert(s.entries@[i].label.key != s.entries@[k].label.key);
    }
}

/// `post` is `pre` with exactly the schedule under `key` replaced by `e`:
/// updated in place when one was stored, appended when none was.
pub open spec fn spec_upserted(pre: Schedules, post: Schedules, key: u64, e: Schedule) -> bool {
    &&& e.label.key == key
    &&& if pre.spec_contains(key) {
        post.entries@ == pre.entries@.update(pre.spec_index_of(key), e)
    } else {
        post.entries@ == pre.entries@.push(e)
    }
}

/// `post` is `pre` with `system` appended to the schedule under `key`; a
/// missing schedule is created fresh around the one system.
pub open spec fn spec_system_added(
    pre: Schedules,
    post: Schedules,
    key: u64,
    system: SystemAction,
) -> bool {
    exists|e: Schedule|
        {
            &&& #[trigger] spec_upserted(pre, post, key, e)
            &&& e.systems@ == if pre.spec_contains(key) {
                pre.spec_entry(key).systems@.push(system)
            } else {
                seq![system]
            }
            &&& e.configured_sets@ == if pre.spec_contains(key) {
                pre.spec_entry(key).configured_sets@
            } else {
                Seq::<u64>::empty()
            }
            &&& e.ignored_ambiguities@ == if pre.spec_contains(key) {
                pre.spec_entry(key).ignored_ambiguities@
            } else {
                Seq::<(u64, u64)>::empty()
            }
            &&& e.executor == if pre.spec_contains(key) {
                pre.spec_entry(key).executor
            } else {
                ExecutorKind::MultiThreaded
            }
            &&& e.settings == if pre.spec_contains(key) {
                pre.spec_entry(key).settings
            } else {
                ScheduleBuildSettings { ambiguity_detection: LogLevel::Ignore }
            }
        }
}

/// `post` is `pre` with the set `set` registered on the schedule under
/// `key`; a missing schedule is created fresh around the one set.
pub open spec fn spec_set_added(pre: Schedules, post: Schedules, key: u64, set: u64) -> bool {
    exists|e: Schedule|
        {
            &&& #[trigger] spec_upserted(pre, post, key, e)
            &&& e.configured_sets@ == if pre.spec_contains(key) {
                pre.spec_entry(key).configured_sets@.push(set)
            } else {
                seq![set]
            }
            &&& e.systems@ == if pre.spec_contains(key) {
                pre.spec_entry(key).systems@
            } else {
                Seq::<SystemAction>::empty()
            }
            &&& e.ignored_ambiguities@ == if pre.spec_contains(key) {
                pre.spec_entry(key).ignored_ambiguities@
            } else {
                Seq::<(u64, u64)>::empty()
            }
            &&& e.executor == if pre.spec_contains(key) {
                pre.spec_entry(key).executor
            } else {
                ExecutorKind::MultiThreaded
            }
            &&& e.settings == if pre.spec_contains(key) {
                pre.spec_entry(key).settings
            } else {
                ScheduleBuildSettings { ambiguity_detection: LogLevel::Ignore }
            }
        }
}

/// `post` is `pre` with the ignored ambiguity `(a, b)` recorded on the
/// schedule under `key`; a missing schedule is created fresh around it.
pub open spec fn spec_ambiguity_added(
    pre: Schedules,
    post: Schedules,
    key: u64,
    a: u64,
    b: u64,
) -> bool {
    exists|e: Schedule|
        {
            &&& #[trigger] spec_upserted(pre, post, key, e)
            &&& e.ignored_ambiguities@ == if pre.spec_contains(key) {
                pre.spec_entry(key).ignored_ambiguities@.push((a, b))
            } else {
                seq![(a, b)]
            }
            &&& e.systems@ == if pre.spec_contains(key) {
                pre.spec_entry(key).systems@
            } else {
                Seq::<SystemAction>::empty()
            }
            &&& e.configured_sets@ == if pre.spec_contains(key) {
                pre.spec_entry(key).configured_sets@
            } else {
                Seq::<u64>::empty()
            }
            &&& e.executor == if pre.spec_contains(key) {
                pre.spec_entry(key).executor
            } else {
                ExecutorKind::MultiThreaded
            }
            &&& e.settings == if pre.spec_contains(key) {
                pre.spec_entry(key).settings
            } else {
                ScheduleBuildSettings { ambiguity_detection: LogLevel::Ignore }
            }
        }
}

} // verus!
