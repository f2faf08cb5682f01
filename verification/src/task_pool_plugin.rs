//! A plugin that keeps the host's task pools ticking.

use vstd::prelude::*;

use crate::plugin::BuildAction;
use crate::plugin::Plugin;

verus! {

/// How many threads the host should give its task pools.
#[derive(Debug, Clone, Copy, PartialEq, Eq, Structural)]
pub struct TaskPoolOptions {
    /// The fewest threads the pools may be given in total.
    pub min_total_threads: usize,
    /// The most threads the pools may be given in total.
    pub max_total_threads: usize,
}

impl Default for TaskPoolOptions {
    fn default() -> (r: TaskPoolOptions)
        ensures
            r.min_total_threads == 1,
            r.max_total_threads == usize::MAX,
    {
        TaskPoolOptions { min_total_threads: 1, max_total_threads: usize::MAX }
    }
}

/// A marker for data that must stay on the main thread, to force the
/// systems that hold it to run there.
#[derive(Debug, Clone, Copy, PartialEq, Eq, Structural)]
pub struct NonSendMarker;

/// Sets up pool upkeep on an app: one upkeep entry in each of the three
/// update phases, so the host's task pools advance their local work every
/// cycle. The pools themselves are created and owned by the host.
#[derive(Debug, Clone, Copy, PartialEq, Eq, Structural)]
pub struct TaskPoolPlugin {
    /// The thread budget the host should give its pools.
    pub task_pool_options: TaskPoolOptions,
}

impl Default for TaskPoolPlugin {
    fn default() -> (r: TaskPoolPlugin)
        ensures
            r.task_pool_options.min_total_threads == 1,
            r.task_pool_options.max_total_threads == usize::MAX,
    {
        TaskPoolPlugin { task_pool_options: TaskPoolOptions::default() }
    }
}

impl Plugin for TaskPoolPlugin {
    open spec fn spec_key() -> u64 {
        2
    }

    open spec fn spec_name() -> Seq<char> {
        "TaskPoolPlugin"@
    }

    open spec fn spec_is_unique() -> bool {
        true
    }

    open spec fn spec_build_action(&self) -> BuildAction {
        BuildAction::TaskPools
    }

    fn key() -> (k: u64) {
        2
    }

    fn name(&self) -> (n: String) {
        "TaskPoolPlugin".to_string()
    }

    fn is_unique(&self) -> (u: bool) {
        true
    }

    fn build_action(&self) -> (a: BuildAction) {
        BuildAction::TaskPools
    }
}

} // verus!
