//! The frame counter resource and the system that advances it.

use vstd::prelude::*;

use crate::access::ResMut;
use crate::access::Resource;
use crate::plugin::BuildAction;
use crate::plugin::Plugin;

verus! {

/// A count of update cycles completed since the application started.
///
/// It is advanced during the last phase of each update, so it reads 0 during
/// the first update, 1 during the next, and so forth. The count wraps to 0
/// after exceeding `u32::MAX`; wrapping subtraction of two observations gives
/// the number of frames between them.
#[derive(Debug, Clone, Copy, PartialEq, Eq, Structural)]
pub struct FrameCount(pub u32);

impl Default for FrameCount {
    fn default() -> (r: FrameCount)
        ensures
            r.0 == 0,
    {
        FrameCount(0)
    }
}

impl Resource for FrameCount {

}

/// Advances the frame count by one, wrapping, and stamps it changed.
pub fn update_frame_count(mut frame_count: ResMut<'_, FrameCount>)
    ensures
        (*final(frame_count.value)).0 == vstd::wrapping::u32_specs::wrapping_add(
            (*old(frame_count.value)).0,
            1,
        ),
        *final(frame_count.ticks.changed) == frame_count.ticks.this_run,
        *final(frame_count.ticks.added) == *old(frame_count.ticks.added),
{
    let next = FrameCount(frame_count.value.0.wrapping_add(1));
    let slot = frame_count.into_inner();
    *slot = next;
}

/// Adds frame counting to an app: the [`FrameCount`] resource, and the
/// system that advances it during the closing phase of each cycle.
#[derive(Debug, Clone, Copy, PartialEq, Eq, Structural)]
pub struct FrameCountPlugin;

impl Plugin for FrameCountPlugin {
    open spec fn spec_key() -> u64 {
        3
    }

    open spec fn spec_name() -> Seq<char> {
        "FrameCountPlugin"@
    }

    open spec fn spec_is_unique() -> bool {
        true
    }

    open spec fn spec_build_action(&self) -> BuildAction {
        BuildAction::FrameCount
    }

    fn key() -> (k: u64) {
        3
    }

    fn name(&self) -> (n: String) {
        "FrameCountPlugin".to_string()
    }

    fn is_unique(&self) -> (u: bool) {
        true
    }

    fn build_action(&self) -> (a: BuildAction) {
        BuildAction::FrameCount
    }
}

} // verus!
