//! The main schedule, its phases, and the resource that orders them.

use vstd::prelude::*;

use crate::plugin::BuildAction;
use crate::plugin::Plugin;
use crate::schedule::InternedScheduleLabel;
use crate::schedule::ScheduleLabel;

verus! {

/// The schedule that holds the app logic evaluated once per update cycle.
/// It runs the phase schedules listed in [`MainScheduleOrder`], in order.
#[derive(Debug, Clone, Copy, PartialEq, Eq, Hash, Structural)]
pub struct Main;

impl ScheduleLabel for Main {
    open spec fn spec_key() -> u64 {
        1
    }

    fn intern(&self) -> (l: InternedScheduleLabel) {
        InternedScheduleLabel { key: 1 }
    }
}

/// The startup phase that runs before [`Startup`].
#[derive(Debug, Clone, Copy, PartialEq, Eq, Hash, Structural)]
pub struct PreStartup;

impl ScheduleLabel for PreStartup {
    open spec fn spec_key() -> u64 {
        2
    }

    fn intern(&self) -> (l: InternedScheduleLabel) {
        InternedScheduleLabel { key: 2 }
    }
}

/// The phase that runs once when the app starts.
#[derive(Debug, Clone, Copy, PartialEq, Eq, Hash, Structural)]
pub struct Startup;

impl ScheduleLabel for Startup {
    open spec fn spec_key() -> u64 {
        3
    }

    fn intern(&self) -> (l: InternedScheduleLabel) {
        InternedScheduleLabel { key: 3 }
    }
}

/// The startup phase that runs once after [`Startup`].
#[derive(Debug, Clone, Copy, PartialEq, Eq, Hash, Structural)]
pub struct PostStartup;

impl ScheduleLabel for PostStartup {
    open spec fn spec_key() -> u64 {
        4
    }

    fn intern(&self) -> (l: InternedScheduleLabel) {
        InternedScheduleLabel { key: 4 }
    }
}

/// The phase for engine and plugin preparation work that must precede
/// [`Update`], such as moving raw input events where app systems can read
/// them.
#[derive(Debug, Clone, Copy, PartialEq, Eq, Hash, Structural)]
pub struct PreUpdate;

impl ScheduleLabel for PreUpdate {
    open spec fn spec_key() -> u64 {
        5
    }

    fn intern(&self) -> (l: InternedScheduleLabel) {
        InternedScheduleLabel { key: 5 }
    }
}

/// The phase that applies state transitions.
#[derive(Debug, Clone, Copy, PartialEq, Eq, Hash, Structural)]
pub struct StateTransition;

impl ScheduleLabel for StateTransition {
    open spec fn spec_key() -> u64 {
        6
    }

    fn intern(&self) -> (l: InternedScheduleLabel) {
        InternedScheduleLabel { key: 6 }
    }
}

/// The phase that holds app logic run once per update cycle.
#[derive(Debug, Clone, Copy, PartialEq, Eq, Hash, Structural)]
pub struct Update;

impl ScheduleLabel for Update {
    open spec fn spec_key() -> u64 {
        7
    }

    fn intern(&self) -> (l: InternedScheduleLabel) {
        InternedScheduleLabel { key: 7 }
    }
}

/// The phase for engine and plugin response work after [`Update`], such as
/// propagating values that app systems wrote.
#[derive(Debug, Clone, Copy, PartialEq, Eq, Hash, Structural)]
pub struct PostUpdate;

impl ScheduleLabel for PostUpdate {
    open spec fn spec_key() -> u64 {
        8
    }

    fn intern(&self) -> (l: InternedScheduleLabel) {
        InternedScheduleLabel { key: 8 }
    }
}

/// The closing phase of each update cycle; bookkeeping such as the frame
/// counter advances here.
#[derive(Debug, Clone, Copy, PartialEq, Eq, Hash, Structural)]
pub struct Last;

impl ScheduleLabel for Last {
    open spec fn spec_key() -> u64 {
        9
    }

    fn intern(&self) -> (l: InternedScheduleLabel) {
        InternedScheduleLabel { key: 9 }
    }
}

/// The phase schedules the [`Main`] schedule runs, in order.
#[derive(Debug, Clone, PartialEq, Eq)]
pub struct MainScheduleOrder {
    /// The labels run for the main phase of each cycle, in run order.
    pub labels: Vec<InternedScheduleLabel>,
    /// The labels run for the startup phase, in run order.
    pub startup_labels: Vec<InternedScheduleLabel>,
}

/// Whether `o` is the standard schedule order: the four update phases and
/// the closing phase in order, and the three startup phases in order.
pub open spec fn is_default_order(o: MainScheduleOrder) -> bool {
    &&& o.labels@ == seq![
        InternedScheduleLabel { key: PreUpdate::spec_key() },
        InternedScheduleLabel { key: StateTransition::spec_key() },
        InternedScheduleLabel { key: Update::spec_key() },
        InternedScheduleLabel { key: PostUpdate::spec_key() },
        InternedScheduleLabel { key: Last::spec_key() },
    ]
    &&& o.startup_labels@ == seq![
        InternedScheduleLabel { key: PreStartup::spec_key() },
        InternedScheduleLabel { key: Startup::spec_key() },
        InternedScheduleLabel { key: PostStartup::spec_key() },
    ]
}

impl Default for MainScheduleOrder {
    fn default() -> (r: MainScheduleOrder)
        ensures
            is_default_order(r),
    {
        let mut labels: Vec<InternedScheduleLabel> = Vec::new();
        labels.push(PreUpdate.intern());
        labels.push(StateTransition.intern());
        labels.push(Update.intern());
        labels.push(PostUpdate.intern());
        labels.push(Last.intern());
        let mut startup_labels: Vec<InternedScheduleLabel> = Vec::new();
        startup_labels.push(PreStartup.intern());
        startup_labels.push(Startup.intern());
        startup_labels.push(PostStartup.intern());
        proof {
            assert(labels@ =~= seq![
                InternedScheduleLabel { key: PreUpdate::spec_key() },
                InternedScheduleLabel { key: StateTransition::spec_key() },
                InternedScheduleLabel { key: Update::spec_key() },
                InternedScheduleLabel { key: PostUpdate::spec_key() },
                InternedScheduleLabel { key: Last::spec_key() },
            ]);
            assert(startup_labels@ =~= seq![
                InternedScheduleLabel { key: PreStartup::spec_key() },
                InternedScheduleLabel { key: Startup::spec_key() },
                InternedScheduleLabel { key: PostStartup::spec_key() },
            ]);
        }
        MainScheduleOrder { labels, startup_labels }
    }
}

impl MainScheduleOrder {
    /// The position of the first occurrence of `key` in the main labels.
    pub open spec fn spec_position(&self, key: u64) -> int {
        choose|i: int| 0 <= i < self.labels@.len() && #[trigger] self.labels@[i].key == key
    }

    /// Whether `key` occurs among the main labels.
    pub open spec fn spec_contains(&self, key: u64) -> bool {
        exists|i: int| 0 <= i < self.labels@.len() && #[trigger] self.labels@[i].key == key
    }

    /// The position of the first occurrence of `key` in the startup labels.
    pub open spec fn spec_startup_position(&self, key: u64) -> int {
        choose|i: int|
            0 <= i < self.startup_labels@.len() && #[trigger] self.startup_labels@[i].key == key
    }

    /// Whether `key` occurs among the startup labels.
    pub open spec fn spec_startup_contains(&self, key: u64) -> bool {
        exists|i: int|
            0 <= i < self.startup_labels@.len() && #[trigger] self.startup_labels@[i].key == key
    }

    /// Adds `schedule` right after `after` in the main list of schedules.
    pub fn insert_after<A: ScheduleLabel, S: ScheduleLabel>(&mut self, after: &A, schedule: &S)
        requires
            old(self).spec_contains(A::spec_key()),
        ensures
            exists|i: int|
                {
                    &&& 0 <= i < old(self).labels@.len()
                    &&& old(self).labels@[i].key == A::spec_key()
                    &&& final(self).labels@ == old(self).labels@.insert(
                        i + 1,
                        (InternedScheduleLabel { key: S::spec_key() }),
                    )
                },
            final(self).startup_labels@ == old(self).startup_labels@,
    {
        let target = after.intern();
        let mut i: usize = 0;
        while i < self.labels.len()
            invariant
                i <= self.labels@.len(),
                self.labels@ == old(self).labels@,
                self.startup_labels@ == old(self).startup_labels@,
                target.key == A::spec_key(),
                self.spec_contains(A::spec_key()),
                forall|j: int| 0 <= j < i ==> #[trigger] self.labels@[j].key != target.key,
            decreases self.labels@.len() - i,
        {
            if self.labels[i].key == target.key {
                self.labels.insert(i + 1, schedule.intern());
                return ;
            }
            i += 1;
        }
        proof {
            assert(false);
        }
    }

    /// Adds `schedule` right after `after` in the list of startup schedules.
    pub fn insert_startup_after<A: ScheduleLabel, S: ScheduleLabel>(
        &mut self,
        after: &A,
        schedule: &S,
    )
        requires
            old(self).spec_startup_contains(A::spec_key()),
        ensures
            exists|i: int|
                {
                    &&& 0 <= i < old(self).startup_labels@.len()
                    &&& old(self).startup_labels@[i].key == A::spec_key()
                    &&& final(self).startup_labels@ == old(self).startup_labels@.insert(
                        i + 1,
                        (InternedScheduleLabel { key: S::spec_key() }),
                    )
                },
            final(self).labels@ == old(self).labels@,
    {
        let target = after.intern();
        let mut i: usize = 0;
        while i < self.startup_labels.len()
            invariant
                i <= self.startup_labels@.len(),
                self.labels@ == old(self).labels@,
                self.startup_labels@ == old(self).startup_labels@,
                target.key == A::spec_key(),
                self.spec_startup_contains(A::spec_key()),
                forall|j: int| 0 <= j < i ==> #[trigger] self.startup_labels@[j].key != target.key,
            decreases self.startup_labels@.len() - i,
        {
            if self.startup_labels[i].key == target.key {
                self.startup_labels.insert(i + 1, schedule.intern());
                return ;
            }
            i += 1;
        }
        proof {
            assert(false);
        }
    }
}

impl Main {
    /// The system that runs the main schedule's phases: each phase listed
    /// in the world's [`MainScheduleOrder`] runs in order, with the order
    /// itself taken out for the duration of the pass.
    pub fn run_main(world: &mut crate::world::World)
        requires
            old(world).wf(),
        ensures
            *final(world) == crate::world::spec_run_main_order(*old(world)),
            final(world).wf(),
    {
        world.run_main_order();
    }
}

/// Sets up the [`Main`] schedule on an app: the schedule itself, run
/// single-threaded, its order resource, and the main-runner system.
#[derive(Debug, Clone, Copy, PartialEq, Eq, Structural)]
pub struct MainSchedulePlugin;

impl Plugin for MainSchedulePlugin {
    open spec fn spec_key() -> u64 {
        1
    }

    open spec fn spec_name() -> Seq<char> {
        "MainSchedulePlugin"@
    }

    open spec fn spec_is_unique() -> bool {
        true
    }

    open spec fn spec_build_action(&self) -> BuildAction {
        BuildAction::MainSchedule
    }

    fn key() -> (k: u64) {
        1
    }

    fn name(&self) -> (n: String) {
        "MainSchedulePlugin".to_string()
    }

    fn is_unique(&self) -> (u: bool) {
        true
    }

    fn build_action(&self) -> (a: BuildAction) {
        BuildAction::MainSchedule
    }
}

} // verus!
