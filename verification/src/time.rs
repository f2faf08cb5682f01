//! A virtual clock resource and the system that advances it.

use vstd::prelude::*;

use crate::access::Res;
use crate::access::ResMut;
use crate::access::Resource;
use crate::plugin::BuildAction;
use crate::plugin::Plugin;

verus! {

/// The virtual time of a world, in nanoseconds: how much has elapsed since
/// startup, and how much the latest update advanced it.
#[derive(Debug, Clone, Copy, PartialEq, Eq, Structural)]
pub struct Time {
    pub elapsed_nanos: u64,
    pub delta_nanos: u64,
}

impl Default for Time {
    fn default() -> (r: Time)
        ensures
            r.elapsed_nanos == 0,
            r.delta_nanos == 0,
    {
        Time { elapsed_nanos: 0, delta_nanos: 0 }
    }
}

impl Resource for Time {

}

/// How the time system should advance [`Time`] each update.
///
/// For most uses [`TimeUpdateStrategy::Automatic`] is fine. When writing
/// tests, or dealing with networking, the next value can be set by hand.
#[derive(Debug, Clone, Copy, PartialEq, Eq, Structural)]
pub enum TimeUpdateStrategy {
    /// Time is fed by the host's clock, which lives outside the world; the
    /// time system leaves the resource for the host to fill.
    Automatic,
    /// Time is moved to the given instant, measured in nanoseconds since
    /// startup. For time to progress, this value must be updated each cycle.
    ManualInstantNanos(u64),
    /// Time is advanced by the given number of nanoseconds each update.
    ManualDurationNanos(u64),
}

impl Default for TimeUpdateStrategy {
    fn default() -> (r: TimeUpdateStrategy)
        ensures
            r == TimeUpdateStrategy::Automatic,
    {
        TimeUpdateStrategy::Automatic
    }
}

impl Resource for TimeUpdateStrategy {

}

/// The set that the time-advancing system belongs to: systems that read
/// [`Time`] should be ordered after it.
#[derive(Debug, Clone, Copy, PartialEq, Eq, Hash, Structural)]
pub struct TimeSystem;

impl TimeSystem {
    /// The system-set key that stands for this set.
    pub fn set_key() -> (k: u64)
        ensures
            k == 1,
    {
        1
    }
}

/// What one run of the time system leaves in the clock, given the strategy
/// and the clock's state before the run.
pub open spec fn spec_advanced_time(t: Time, strategy: TimeUpdateStrategy) -> Time {
    match strategy {
        TimeUpdateStrategy::Automatic => t,
        TimeUpdateStrategy::ManualInstantNanos(n) => Time {
            elapsed_nanos: n,
            delta_nanos: n.saturating_sub(t.elapsed_nanos),
        },
        TimeUpdateStrategy::ManualDurationNanos(d) => Time {
            elapsed_nanos: t.elapsed_nanos.saturating_add(d),
            delta_nanos: d,
        },
    }
}

/// Advances the clock as the strategy directs and stamps it changed. Under
/// the automatic strategy the host's clock feed owns the value, so the
/// resource is written back unchanged.
pub fn time_system(mut time: ResMut<'_, Time>, update_strategy: Res<'_, TimeUpdateStrategy>)
    ensures
        *final(time.value) == spec_advanced_time(*old(time.value), *update_strategy.value),
        *final(time.ticks.changed) == time.ticks.this_run,
        *final(time.ticks.added) == *old(time.ticks.added),
{
    let next = match *update_strategy.value {
        TimeUpdateStrategy::Automatic => Time {
            elapsed_nanos: time.value.elapsed_nanos,
            delta_nanos: time.value.delta_nanos,
        },
        TimeUpdateStrategy::ManualInstantNanos(n) => Time {
            elapsed_nanos: n,
            delta_nanos: n.saturating_sub(time.value.elapsed_nanos),
        },
        TimeUpdateStrategy::ManualDurationNanos(d) => Time {
            elapsed_nanos: time.value.elapsed_nanos.saturating_add(d),
            delta_nanos: d,
        },
    };
    let slot = time.into_inner();
    *slot = next;
}

/// Adds time keeping to an app: the [`Time`] and [`TimeUpdateStrategy`]
/// resources, and the system that advances the clock before each update.
#[derive(Debug, Clone, Copy, PartialEq, Eq, Structural)]
pub struct TimePlugin;

impl Plugin for TimePlugin {
    open spec fn spec_key() -> u64 {
        4
    }

    open spec fn spec_name() -> Seq<char> {
        "TimePlugin"@
    }

    open spec fn spec_is_unique() -> bool {
        true
    }

    open spec fn spec_build_action(&self) -> BuildAction {
        BuildAction::Time
    }

    fn key() -> (k: u64) {
        4
    }

    fn name(&self) -> (n: String) {
        "TimePlugin".to_string()
    }

    fn is_unique(&self) -> (u: bool) {
        true
    }

    fn build_action(&self) -> (a: BuildAction) {
        BuildAction::Time
    }
}

} // verus!
