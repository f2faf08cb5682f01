//! A runner that drives an app's schedule once or in a loop.

use vstd::prelude::*;

use crate::plugin::BuildAction;
use crate::plugin::Plugin;

verus! {

/// How a schedule-runner app executes its main schedule.
#[derive(Debug, Clone, Copy, PartialEq, Eq, Structural)]
pub enum RunMode {
    /// The schedule runs repeatedly until an exit is requested. The repeat
    /// itself belongs to the host's event loop; each pass is one call of
    /// [`App::update`](crate::app::App::update).
    Loop,
    /// The schedule runs exactly once.
    Once,
}

impl Default for RunMode {
    fn default() -> (r: RunMode)
        ensures
            r == RunMode::Loop,
    {
        RunMode::Loop
    }
}

/// Configures an app to run its schedule by a given [`RunMode`]. Meant for
/// headless apps; windowed apps get their cycle from the window's event
/// loop instead.
#[derive(Debug, Clone, Copy, PartialEq, Eq, Structural)]
pub struct ScheduleRunnerPlugin {
    /// Whether the schedule is run once or repeatedly.
    pub run_mode: RunMode,
}

impl Default for ScheduleRunnerPlugin {
    fn default() -> (r: ScheduleRunnerPlugin)
        ensures
            r.run_mode == RunMode::Loop,
    {
        ScheduleRunnerPlugin { run_mode: RunMode::Loop }
    }
}

impl ScheduleRunnerPlugin {
    /// A runner plugin that runs the schedule once. See [`RunMode::Once`].
    pub fn run_once() -> (r: ScheduleRunnerPlugin)
        ensures
            r.run_mode == RunMode::Once,
    {
        ScheduleRunnerPlugin { run_mode: RunMode::Once }
    }

    /// A runner plugin that runs the schedule repeatedly. See
    /// [`RunMode::Loop`].
    pub fn run_loop() -> (r: ScheduleRunnerPlugin)
        ensures
            r.run_mode == RunMode::Loop,
    {
        ScheduleRunnerPlugin { run_mode: RunMode::Loop }
    }
}

impl Plugin for ScheduleRunnerPlugin {
    open spec fn spec_key() -> u64 {
        5
    }

    open spec fn spec_name() -> Seq<char> {
        "ScheduleRunnerPlugin"@
    }

    open spec fn spec_is_unique() -> bool {
        true
    }

    open spec fn spec_build_action(&self) -> BuildAction {
        BuildAction::ScheduleRunner(self.run_mode)
    }

    fn key() -> (k: u64) {
        5
    }

    fn name(&self) -> (n: String) {
        "ScheduleRunnerPlugin".to_string()
    }

    fn is_unique(&self) -> (u: bool) {
        true
    }

    fn build_action(&self) -> (a: BuildAction) {
        BuildAction::ScheduleRunner(self.run_mode)
    }
}

} // verus!
