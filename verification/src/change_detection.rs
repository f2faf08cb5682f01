//! Change-window snapshots and the read / write capability traits.

use vstd::prelude::*;
use vstd::std_specs::cmp::PartialEqSpec;

use crate::component::ComponentTicks;
use crate::component::Tick;

verus! {

/// The minimum number of world tick increments between two sweep passes.
///
/// Ticks can only be swept when systems are not running, so with a threshold
/// of `N` the counter may advance at most `2 * N - 1` times between the ages
/// seen by two passes. As long as no tracked age ever exceeds
/// [`MAX_CHANGE_AGE`] after a pass, no age can overflow before the next one.
pub const CHECK_TICK_THRESHOLD: u32 = 518_400_000;

/// The maximum tracked age that cannot overflow before the next sweep pass.
///
/// Changes stop being reported once they become this old.
pub const MAX_CHANGE_AGE: u32 = u32::MAX - (2 * CHECK_TICK_THRESHOLD - 1);

/// A shared change-window snapshot: read-only borrows of one slot's tick
/// pair, together with the `(last_run, this_run)` window of the observer.
pub struct Ticks<'w> {
    pub added: &'w Tick,
    pub changed: &'w Tick,
    pub last_run: Tick,
    pub this_run: Tick,
}

impl<'w> Ticks<'w> {
    /// Borrows the tick pair of one storage slot for reading, under the
    /// window `(last_run, this_run)`.
    pub fn from_tick_cells(cells: &'w ComponentTicks, last_run: Tick, this_run: Tick) -> (r: Ticks<
        'w,
    >)
        ensures
            *r.added == cells.added,
            *r.changed == cells.changed,
            r.last_run == last_run,
            r.this_run == this_run,
    {
        Ticks { added: &cells.added, changed: &cells.changed, last_run, this_run }
    }
}

/// An exclusive change-window snapshot: mutable borrows of one slot's tick
/// pair, together with the `(last_run, this_run)` window of the observer.
/// Holding it is the sole write access to the pair for its lifetime.
pub struct TicksMut<'w> {
    pub added: &'w mut Tick,
    pub changed: &'w mut Tick,
    pub last_run: Tick,
    pub this_run: Tick,
}

impl<'w> TicksMut<'w> {
    /// Borrows the tick pair of one storage slot for writing, under the
    /// window `(last_run, this_run)`. Writes through the snapshot land in
    /// `cells` when the borrow ends.
    pub fn from_tick_cells(cells: &'w mut ComponentTicks, last_run: Tick, this_run: Tick) -> (r:
        TicksMut<'w>)
        ensures
            *r.added == old(cells).added,
            *r.changed == old(cells).changed,
            r.last_run == last_run,
            r.this_run == this_run,
            final(cells).added == *final(r.added),
            final(cells).changed == *final(r.changed),
    {
        TicksMut { added: &mut cells.added, changed: &mut cells.changed, last_run, this_run }
    }

    /// Downgrades this exclusive snapshot to a shared one. The exclusive
    /// borrow is consumed, so the tick pair keeps its current values for the
    /// shared snapshot's whole lifetime.
    pub fn into_readonly(self) -> (r: Ticks<'w>)
        ensures
            *r.added == *old(self.added),
            *r.changed == *old(self.changed),
            r.last_run == self.last_run,
            r.this_run == self.this_run,
    {
        Ticks {
            added: &*self.added,
            changed: &*self.changed,
            last_run: self.last_run,
            this_run: self.this_run,
        }
    }
}

/// Read access to change detection: was the observed slot added or written
/// inside the observer's window.
pub trait DetectChanges {
    /// The tick recording when the observed slot was inserted.
    spec fn added_tick(&self) -> Tick;

    /// The tick recording the most recent write to the observed slot.
    spec fn changed_tick(&self) -> Tick;

    /// The opening tick of the observation window: the observer's previous run.
    spec fn last_run(&self) -> Tick;

    /// The closing tick of the observation window: the current run.
    spec fn this_run(&self) -> Tick;

    /// Returns whether the slot was inserted after the observer last ran.
    fn is_added(&self) -> (r: bool)
        ensures
            r == self.added_tick().spec_is_newer_than(self.last_run(), self.this_run()),
    ;

    /// Returns whether the slot was inserted or written after the observer
    /// last ran.
    fn is_changed(&self) -> (r: bool)
        ensures
            r == self.changed_tick().spec_is_newer_than(self.last_run(), self.this_run()),
    ;

    /// Returns the tick recording the most recent write.
    fn last_changed(&self) -> (t: Tick)
        ensures
            t == self.changed_tick(),
    ;
}

/// Write access with change detection: writes stamp the slot's `changed`
/// tick with `this_run`, except through the explicit bypass.
pub trait DetectChangesMut: DetectChanges {
    /// The type of the wrapped value.
    type Inner;

    /// The wrapped value.
    spec fn inner(&self) -> Self::Inner;

    /// Flags the observed slot as changed at `this_run`. Idempotent within
    /// one window; cannot be undone.
    fn set_changed(&mut self)
        ensures
            final(self).changed_tick() == old(self).this_run(),
            final(self).added_tick() == old(self).added_tick(),
            final(self).last_run() == old(self).last_run(),
            final(self).this_run() == old(self).this_run(),
            final(self).inner() == old(self).inner(),
    ;

    /// Overwrites the `changed` tick with an arbitrary value; an escape hatch
    /// for rollback and replay schemes, whose consistency is the caller's.
    fn set_last_changed(&mut self, last_changed: Tick)
        ensures
            final(self).changed_tick() == last_changed,
            final(self).added_tick() == old(self).added_tick(),
            final(self).last_run() == old(self).last_run(),
            final(self).this_run() == old(self).this_run(),
            final(self).inner() == old(self).inner(),
    ;

    /// Grants mutable access to the wrapped value without stamping the
    /// `changed` tick: writes through the returned reference are invisible
    /// to change detection.
    fn bypass_change_detection(&mut self) -> (r: &mut Self::Inner)
        ensures
            *r == old(self).inner(),
            final(self).inner() == *final(r),
            final(self).added_tick() == old(self).added_tick(),
            final(self).changed_tick() == old(self).changed_tick(),
            final(self).last_run() == old(self).last_run(),
            final(self).this_run() == old(self).this_run(),
    ;

    /// Overwrites the wrapped value and stamps `changed` if and only if the
    /// new value compares unequal to the current one; returns whether an
    /// overwrite happened. An equal value leaves both the value and the
    /// ticks untouched, so no spurious change is reported.
    fn set_if_neq(&mut self, value: Self::Inner) -> (changed: bool) where Self::Inner: PartialEq
        ensures
            changed ==> final(self).inner() == value && final(self).changed_tick() == old(self).this_run(),
            !changed ==> final(self).inner() == old(self).inner() && final(self).changed_tick()
                == old(self).changed_tick(),
            final(self).added_tick() == old(self).added_tick(),
            final(self).last_run() == old(self).last_run(),
            final(self).this_run() == old(self).this_run(),
            <Self::Inner as PartialEqSpec>::obeys_eq_spec() ==> changed == !old(self).inner()
                .eq_spec(&value),
    {
        let old_value = self.bypass_change_detection();
        if *old_value != value {
            *old_value = value;
            self.set_changed();
            true
        } else {
            false
        }
    }

    /// Like [`DetectChangesMut::set_if_neq`], but hands back the previous
    /// value when an overwrite happened, and `None` otherwise.
    fn replace_if_neq(&mut self, value: Self::Inner) -> (previous: Option<Self::Inner>) where
        Self::Inner: PartialEq

        ensures
            previous is Some ==> final(self).inner() == value && final(self).changed_tick() == old(self).this_run() && previous == Some(old(self).inner()),
            previous is None ==> final(self).inner() == old(self).inner() && final(self).changed_tick() == old(self).changed_tick(),
            final(self).added_tick() == old(self).added_tick(),
            final(self).last_run() == old(self).last_run(),
            final(self).this_run() == old(self).this_run(),
            <Self::Inner as PartialEqSpec>::obeys_eq_spec() ==> (previous is Some) == !old(self).inner().eq_spec(&value),
    {
        let old_value = self.bypass_change_detection();
        if *old_value != value {
            let mut taken = value;
            core::mem::swap(old_value, &mut taken);
            self.set_changed();
            Some(taken)
        } else {
            None
        }
    }
}

} // verus!
