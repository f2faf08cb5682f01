//! Smart references that couple a data borrow with change detection.

use vstd::prelude::*;

use crate::change_detection::DetectChanges;
use crate::change_detection::DetectChangesMut;
use crate::change_detection::Ticks;
use crate::change_detection::TicksMut;
use crate::component::Tick;

verus! {

/// Marker for globally unique data that lives directly on a world rather
/// than on an entity.
pub trait Resource {

}

/// Shared borrow of a resource, with access to change detection.
pub struct Res<'w, T: Resource> {
    pub value: &'w T,
    pub ticks: Ticks<'w>,
}

impl<'w, T: Resource> Res<'w, T> {
    /// Copies this reference. Shared snapshots may coexist freely, so this
    /// only duplicates the borrows.
    pub fn clone(this: &Res<'w, T>) -> (r: Res<'w, T>)
        ensures
            r.value == this.value,
            r.ticks.added == this.ticks.added,
            r.ticks.changed == this.ticks.changed,
            r.ticks.last_run == this.ticks.last_run,
            r.ticks.this_run == this.ticks.this_run,
    {
        Res {
            value: this.value,
            ticks: Ticks {
                added: this.ticks.added,
                changed: this.ticks.changed,
                last_run: this.ticks.last_run,
                this_run: this.ticks.this_run,
            },
        }
    }

    /// Returns the wrapped reference with the full borrow lifetime `'w`
    /// rather than the lifetime of `self`.
    pub fn into_inner(self) -> (r: &'w T)
        ensures
            r == self.value,
    {
        self.value
    }
}

impl<'w, T: Resource> DetectChanges for Res<'w, T> {
    open spec fn added_tick(&self) -> Tick {
        *self.ticks.added
    }

    open spec fn changed_tick(&self) -> Tick {
        *self.ticks.changed
    }

    open spec fn last_run(&self) -> Tick {
        self.ticks.last_run
    }

    open spec fn this_run(&self) -> Tick {
        self.ticks.this_run
    }

    fn is_added(&self) -> (r: bool) {
        self.ticks.added.is_newer_than(self.ticks.last_run, self.ticks.this_run)
    }

    fn is_changed(&self) -> (r: bool) {
        self.ticks.changed.is_newer_than(self.ticks.last_run, self.ticks.this_run)
    }

    fn last_changed(&self) -> (t: Tick) {
        *self.ticks.changed
    }
}

/// Exclusive borrow of a resource, with change detection on writes.
pub struct ResMut<'w, T: Resource> {
    pub value: &'w mut T,
    pub ticks: TicksMut<'w>,
}

impl<'w, T: Resource> ResMut<'w, T> {
    /// Consumes `self`, marks the resource as changed, and returns the
    /// wrapped reference with the full borrow lifetime `'w`.
    pub fn into_inner(self) -> (r: &'w mut T)
        ensures
            *r == *old(self.value),
            *final(self.value) == *final(r),
            *final(self.ticks.changed) == self.ticks.this_run,
            *final(self.ticks.added) == *old(self.ticks.added),
    {
        *self.ticks.changed = self.ticks.this_run;
        self.value
    }

    /// Produces a [`Mut`] over the same data and ticks with a shorter
    /// lifetime, so the original can be used again afterwards.
    pub fn reborrow(&mut self) -> (r: Mut<'_, T>)
        ensures
            *r.value == old(self).inner(),
            *r.ticks.added == old(self).added_tick(),
            *r.ticks.changed == old(self).changed_tick(),
            r.ticks.last_run == old(self).last_run(),
            r.ticks.this_run == old(self).this_run(),
            final(self).inner() == *final(r.value),
            final(self).added_tick() == *final(r.ticks.added),
            final(self).changed_tick() == *final(r.ticks.changed),
            final(self).last_run() == old(self).last_run(),
            final(self).this_run() == old(self).this_run(),
    {
        Mut {
            value: &mut *self.value,
            ticks: TicksMut {
                added: &mut *self.ticks.added,
                changed: &mut *self.ticks.changed,
                last_run: self.ticks.last_run,
                this_run: self.ticks.this_run,
            },
        }
    }

    /// Downgrades this exclusive reference to a shared [`Res`], dropping the
    /// write capability while keeping the change-window snapshot.
    pub fn into_readonly(self) -> (r: Res<'w, T>)
        ensures
            *r.value == *old(self.value),
            *r.ticks.added == *old(self.ticks.added),
            *r.ticks.changed == *old(self.ticks.changed),
            r.ticks.last_run == self.ticks.last_run,
            r.ticks.this_run == self.ticks.this_run,
    {
        Res { value: &*self.value, ticks: self.ticks.into_readonly() }
    }
}

impl<'w, T: Resource> DetectChanges for ResMut<'w, T> {
    open spec fn added_tick(&self) -> Tick {
        *self.ticks.added
    }

    open spec fn changed_tick(&self) -> Tick {
        *self.ticks.changed
    }

    open spec fn last_run(&self) -> Tick {
        self.ticks.last_run
    }

    open spec fn this_run(&self) -> Tick {
        self.ticks.this_run
    }

    fn is_added(&self) -> (r: bool) {
        self.ticks.added.is_newer_than(self.ticks.last_run, self.ticks.this_run)
    }

    fn is_changed(&self) -> (r: bool) {
        self.ticks.changed.is_newer_than(self.ticks.last_run, self.ticks.this_run)
    }

    fn last_changed(&self) -> (t: Tick) {
        *self.ticks.changed
    }
}

impl<'w, T: Resource> DetectChangesMut for ResMut<'w, T> {
    type Inner = T;

    open spec fn inner(&self) -> T {
        *self.value
    }

    fn set_changed(&mut self) {
        *self.ticks.changed = self.ticks.this_run;
    }

    fn set_last_changed(&mut self, last_changed: Tick) {
        *self.ticks.changed = last_changed;
    }

    fn bypass_change_detection(&mut self) -> (r: &mut T) {
        &mut *self.value
    }
}

/// Exclusive borrow of data that must stay on its home thread, with change
/// detection on writes.
pub struct NonSendMut<'w, T> {
    pub value: &'w mut T,
    pub ticks: TicksMut<'w>,
}

impl<'w, T> NonSendMut<'w, T> {
    /// Consumes `self`, marks the data as changed, and returns the wrapped
    /// reference with the full borrow lifetime `'w`.
    pub fn into_inner(self) -> (r: &'w mut T)
        ensures
            *r == *old(self.value),
            *final(self.value) == *final(r),
            *final(self.ticks.changed) == self.ticks.this_run,
            *final(self.ticks.added) == *old(self.ticks.added),
    {
        *self.ticks.changed = self.ticks.this_run;
        self.value
    }

    /// Produces a [`Mut`] over the same data and ticks with a shorter
    /// lifetime, so the original can be used again afterwards.
    pub fn reborrow(&mut self) -> (r: Mut<'_, T>)
        ensures
            *r.value == old(self).inner(),
            *r.ticks.added == old(self).added_tick(),
            *r.ticks.changed == old(self).changed_tick(),
            r.ticks.last_run == old(self).last_run(),
            r.ticks.this_run == old(self).this_run(),
            final(self).inner() == *final(r.value),
            final(self).added_tick() == *final(r.ticks.added),
            final(self).changed_tick() == *final(r.ticks.changed),
            final(self).last_run() == old(self).last_run(),
            final(self).this_run() == old(self).this_run(),
    {
        Mut {
            value: &mut *self.value,
            ticks: TicksMut {
                added: &mut *self.ticks.added,
                changed: &mut *self.ticks.changed,
                last_run: self.ticks.last_run,
                this_run: self.ticks.this_run,
            },
        }
    }

    /// Takes this smart reference apart into the data borrow and the tick
    /// snapshot, without flagging a change.
    pub fn into_parts(self) -> (r: (&'w mut T, TicksMut<'w>))
        ensures
            *r.0 == *old(self.value),
            *r.1.added == *old(self.ticks.added),
            *r.1.changed == *old(self.ticks.changed),
            r.1.last_run == self.ticks.last_run,
            r.1.this_run == self.ticks.this_run,
            *final(self.value) == *final(r.0),
            *final(self.ticks.added) == *final(r.1.added),
            *final(self.ticks.changed) == *final(r.1.changed),
    {
        (self.value, self.ticks)
    }
}

impl<'w, T> DetectChanges for NonSendMut<'w, T> {
    open spec fn added_tick(&self) -> Tick {
        *self.ticks.added
    }

    open spec fn changed_tick(&self) -> Tick {
        *self.ticks.changed
    }

    open spec fn last_run(&self) -> Tick {
        self.ticks.last_run
    }

    open spec fn this_run(&self) -> Tick {
        self.ticks.this_run
    }

    fn is_added(&self) -> (r: bool) {
        self.ticks.added.is_newer_than(self.ticks.last_run, self.ticks.this_run)
    }

    fn is_changed(&self) -> (r: bool) {
        self.ticks.changed.is_newer_than(self.ticks.last_run, self.ticks.this_run)
    }

    fn last_changed(&self) -> (t: Tick) {
        *self.ticks.changed
    }
}

impl<'w, T> DetectChangesMut for NonSendMut<'w, T> {
    type Inner = T;

    open spec fn inner(&self) -> T {
        *self.value
    }

    fn set_changed(&mut self) {
        *self.ticks.changed = self.ticks.this_run;
    }

    fn set_last_changed(&mut self, last_changed: Tick) {
        *self.ticks.changed = last_changed;
    }

    fn bypass_change_detection(&mut self) -> (r: &mut T) {
        &mut *self.value
    }
}

/// Shared borrow of one entity's component, with access to change detection.
pub struct Ref<'w, T> {
    pub value: &'w T,
    pub ticks: Ticks<'w>,
}

impl<'w, T> Ref<'w, T> {
    /// Creates a new shared smart reference from its parts. `last_run` must
    /// not postdate `this_run` relative to the shared reference point; that
    /// window is supplied, not checked.
    pub fn new(value: &'w T, added: &'w Tick, changed: &'w Tick, last_run: Tick, this_run: Tick) -> (r:
        Ref<'w, T>)
        ensures
            r.value == value,
            r.ticks.added == added,
            r.ticks.changed == changed,
            r.ticks.last_run == last_run,
            r.ticks.this_run == this_run,
    {
        Ref { value, ticks: Ticks { added, changed, last_run, this_run } }
    }

    /// Returns the wrapped reference with the full borrow lifetime `'w`.
    pub fn into_inner(self) -> (r: &'w T)
        ensures
            r == self.value,
    {
        self.value
    }

    /// Maps to a different part of the borrowed data by applying `f` to the
    /// wrapped reference, keeping the same change-window snapshot.
    pub fn map<U, F: FnOnce(&'w T) -> &'w U>(self, f: F) -> (r: Ref<'w, U>)
        requires
            call_requires(f, (self.value,)),
        ensures
            call_ensures(f, (self.value,), r.value),
            r.ticks.added == self.ticks.added,
            r.ticks.changed == self.ticks.changed,
            r.ticks.last_run == self.ticks.last_run,
            r.ticks.this_run == self.ticks.this_run,
    {
        Ref { value: f(self.value), ticks: self.ticks }
    }
}

impl<'w, T> DetectChanges for Ref<'w, T> {
    open spec fn added_tick(&self) -> Tick {
        *self.ticks.added
    }

    open spec fn changed_tick(&self) -> Tick {
        *self.ticks.changed
    }

    open spec fn last_run(&self) -> Tick {
        self.ticks.last_run
    }

    open spec fn this_run(&self) -> Tick {
        self.ticks.this_run
    }

    fn is_added(&self) -> (r: bool) {
        self.ticks.added.is_newer_than(self.ticks.last_run, self.ticks.this_run)
    }

    fn is_changed(&self) -> (r: bool) {
        self.ticks.changed.is_newer_than(self.ticks.last_run, self.ticks.this_run)
    }

    fn last_changed(&self) -> (t: Tick) {
        *self.ticks.changed
    }
}

/// Exclusive borrow of one entity's component or of a resource, with change
/// detection on writes.
pub struct Mut<'w, T> {
    pub value: &'w mut T,
    pub ticks: TicksMut<'w>,
}

impl<'w, T> Mut<'w, T> {
    /// Creates a new exclusive smart reference from its parts. `last_run`
    /// must not postdate `this_run` relative to the shared reference point;
    /// that window is supplied, not checked.
    pub fn new(
        value: &'w mut T,
        added: &'w mut Tick,
        last_changed: &'w mut Tick,
        last_run: Tick,
        this_run: Tick,
    ) -> (r: Mut<'w, T>)
        ensures
            *r.value == *old(value),
            *r.ticks.added == *old(added),
            *r.ticks.changed == *old(last_changed),
            r.ticks.last_run == last_run,
            r.ticks.this_run == this_run,
            *final(value) == *final(r.value),
            *final(added) == *final(r.ticks.added),
            *final(last_changed) == *final(r.ticks.changed),
    {
        Mut { value, ticks: TicksMut { added, changed: last_changed, last_run, this_run } }
    }

    /// Consumes `self`, marks the data as changed, and returns the wrapped
    /// reference with the full borrow lifetime `'w`.
    pub fn into_inner(self) -> (r: &'w mut T)
        ensures
            *r == *old(self.value),
            *final(self.value) == *final(r),
            *final(self.ticks.changed) == self.ticks.this_run,
            *final(self.ticks.added) == *old(self.ticks.added),
    {
        *self.ticks.changed = self.ticks.this_run;
        self.value
    }

    /// Grants mutable access to the wrapped value, marking the data as
    /// changed first: mutation access itself is what stamps the tick.
    pub fn as_mut(&mut self) -> (r: &mut T)
        ensures
            *r == *old(self).value,
            final(self).inner() == *final(r),
            *final(self).ticks.changed == old(self).ticks.this_run,
            *final(self).ticks.added == *old(self).ticks.added,
            final(self).ticks.last_run == old(self).ticks.last_run,
            final(self).ticks.this_run == old(self).ticks.this_run,
    {
        *self.ticks.changed = self.ticks.this_run;
        &mut *self.value
    }

    /// Produces a [`Mut`] over the same data and ticks with a shorter
    /// lifetime, so the original can be used again afterwards.
    pub fn reborrow(&mut self) -> (r: Mut<'_, T>)
        ensures
            *r.value == old(self).inner(),
            *r.ticks.added == old(self).added_tick(),
            *r.ticks.changed == old(self).changed_tick(),
            r.ticks.last_run == old(self).last_run(),
            r.ticks.this_run == old(self).this_run(),
            final(self).inner() == *final(r.value),
            final(self).added_tick() == *final(r.ticks.added),
            final(self).changed_tick() == *final(r.ticks.changed),
            final(self).last_run() == old(self).last_run(),
            final(self).this_run() == old(self).this_run(),
    {
        Mut {
            value: &mut *self.value,
            ticks: TicksMut {
                added: &mut *self.ticks.added,
                changed: &mut *self.ticks.changed,
                last_run: self.ticks.last_run,
                this_run: self.ticks.this_run,
            },
        }
    }

    /// Takes this smart reference apart into the data borrow and the tick
    /// snapshot, without flagging a change. Narrowing to a sub-part of the
    /// value keeps the outer discipline: rebundle the borrow of the sub-part
    /// with the returned snapshot, and only actual writes mark change.
    pub fn into_parts(self) -> (r: (&'w mut T, TicksMut<'w>))
        ensures
            *r.0 == *old(self.value),
            *r.1.added == *old(self.ticks.added),
            *r.1.changed == *old(self.ticks.changed),
            r.1.last_run == self.ticks.last_run,
            r.1.this_run == self.ticks.this_run,
            *final(self.value) == *final(r.0),
            *final(self.ticks.added) == *final(r.1.added),
            *final(self.ticks.changed) == *final(r.1.changed),
    {
        (self.value, self.ticks)
    }

    /// Downgrades this exclusive reference to a shared [`Ref`], dropping the
    /// write capability while keeping the change-window snapshot.
    pub fn into_readonly(self) -> (r: Ref<'w, T>)
        ensures
            *r.value == *old(self.value),
            *r.ticks.added == *old(self.ticks.added),
            *r.ticks.changed == *old(self.ticks.changed),
            r.ticks.last_run == self.ticks.last_run,
            r.ticks.this_run == self.ticks.this_run,
    {
        Ref { value: &*self.value, ticks: self.ticks.into_readonly() }
    }
}

impl<'w, T> DetectChanges for Mut<'w, T> {
    open spec fn added_tick(&self) -> Tick {
        *self.ticks.added
    }

    open spec fn changed_tick(&self) -> Tick {
        *self.ticks.changed
    }

    open spec fn last_run(&self) -> Tick {
        self.ticks.last_run
    }

    open spec fn this_run(&self) -> Tick {
        self.ticks.this_run
    }

    fn is_added(&self) -> (r: bool) {
        self.ticks.added.is_newer_than(self.ticks.last_run, self.ticks.this_run)
    }

    fn is_changed(&self) -> (r: bool) {
        self.ticks.changed.is_newer_than(self.ticks.last_run, self.ticks.this_run)
    }

    fn last_changed(&self) -> (t: Tick) {
        *self.ticks.changed
    }
}

impl<'w, T> DetectChangesMut for Mut<'w, T> {
    type Inner = T;

    open spec fn inner(&self) -> T {
        *self.value
    }

    fn set_changed(&mut self) {
        *self.ticks.changed = self.ticks.this_run;
    }

    fn set_last_changed(&mut self, last_changed: Tick) {
        *self.ticks.changed = last_changed;
    }

    fn bypass_change_detection(&mut self) -> (r: &mut T) {
        &mut *self.value
    }
}

impl<'w, T: Resource> From<ResMut<'w, T>> for Mut<'w, T> {
    /// Forgets that the borrowed data is a resource, keeping the borrows and
    /// the change-window snapshot as they are.
    fn from(other: ResMut<'w, T>) -> (r: Mut<'w, T>) {
        Mut { value: other.value, ticks: other.ticks }
    }
}

impl<'w, T: Resource> vstd::std_specs::convert::FromSpecImpl<ResMut<'w, T>> for Mut<'w, T> {
    open spec fn obeys_from_spec() -> bool {
        // A value holding mutable borrows has no provable identity across
        // the repackaging, so the conversion claims nothing; the borrows
        // and the window are moved as they are.
        false
    }

    open spec fn from_spec(other: ResMut<'w, T>) -> Mut<'w, T> {
        Mut { value: other.value, ticks: other.ticks }
    }
}

impl<'w, T> From<NonSendMut<'w, T>> for Mut<'w, T> {
    /// Forgets that the borrowed data is bound to its home thread, keeping
    /// the borrows and the change-window snapshot as they are.
    fn from(other: NonSendMut<'w, T>) -> (r: Mut<'w, T>) {
        Mut { value: other.value, ticks: other.ticks }
    }
}

impl<'w, T> vstd::std_specs::convert::FromSpecImpl<NonSendMut<'w, T>> for Mut<'w, T> {
    open spec fn obeys_from_spec() -> bool {
        // As for the resource conversion above: no identity to claim.
        false
    }

    open spec fn from_spec(other: NonSendMut<'w, T>) -> Mut<'w, T> {
        Mut { value: other.value, ticks: other.ticks }
    }
}

} // verus!
