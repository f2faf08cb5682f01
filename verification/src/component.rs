//! The tick values that record when data was inserted or last written.

use vstd::prelude::*;

use crate::change_detection::MAX_CHANGE_AGE;

verus! {

/// A value of a world's change counter at a particular point in time.
///
/// Ticks wrap around at `u32::MAX`; they are never compared absolutely, only
/// through [`Tick::is_newer_than`], which works on wrapping distances.
#[derive(Debug, Clone, Copy, PartialEq, Eq, Hash, Structural)]
pub struct Tick {
    pub tick: u32,
}

/// The wrapping distance `a - b`, read as "how far `b` lies behind `a`".
pub open spec fn tick_distance(a: Tick, b: Tick) -> u32 {
    vstd::wrapping::u32_specs::wrapping_sub(a.tick, b.tick)
}

/// The age of `event` as seen from `this_run`, clamped to [`MAX_CHANGE_AGE`].
pub open spec fn clamped_age(this_run: Tick, event: Tick) -> u32 {
    if tick_distance(this_run, event) > MAX_CHANGE_AGE {
        MAX_CHANGE_AGE
    } else {
        tick_distance(this_run, event)
    }
}

impl Tick {
    /// What [`Tick::relative_to`] returns.
    pub open spec fn spec_relative_to(self, other: Tick) -> Tick {
        Tick { tick: tick_distance(self, other) }
    }

    /// What [`Tick::is_newer_than`] returns: the clamped age of `self` is
    /// strictly smaller than the clamped age of `last_run`, both seen from
    /// `this_run`.
    pub open spec fn spec_is_newer_than(self, last_run: Tick, this_run: Tick) -> bool {
        clamped_age(this_run, last_run) > clamped_age(this_run, self)
    }

    /// What a tick becomes when [`Tick::check_tick`] visits it: pulled forward
    /// to an age of exactly [`MAX_CHANGE_AGE`] if it has aged past that bound,
    /// untouched otherwise.
    pub open spec fn spec_check_tick(self, current: Tick) -> Tick {
        if tick_distance(current, self) > MAX_CHANGE_AGE {
            current.spec_relative_to(Tick { tick: MAX_CHANGE_AGE })
        } else {
            self
        }
    }

    /// Constructs a new `Tick` wrapping the given raw value.
    pub fn new(tick: u32) -> (t: Tick)
        ensures
            t.tick == tick,
    {
        Tick { tick }
    }

    /// Gets the raw value of this tick.
    pub fn get(self) -> (v: u32)
        ensures
            v == self.tick,
    {
        self.tick
    }

    /// Sets the raw value of this tick.
    pub fn set(&mut self, tick: u32)
        ensures
            final(self).tick == tick,
    {
        self.tick = tick;
    }

    /// Returns how far `self` lies ahead of `other`, as a wrapping difference.
    pub fn relative_to(self, other: Tick) -> (r: Tick)
        ensures
            r == self.spec_relative_to(other),
    {
        Tick { tick: self.tick.wrapping_sub(other.tick) }
    }

    /// Returns whether `self` falls inside the observation window that opens
    /// after `last_run` and closes at `this_run` (inclusive).
    pub fn is_newer_than(self, last_run: Tick, this_run: Tick) -> (newer: bool)
        ensures
            newer == self.spec_is_newer_than(last_run, this_run),
    {
        let age_of_self = this_run.relative_to(self).get();
        let ticks_since_insert = if age_of_self > MAX_CHANGE_AGE {
            MAX_CHANGE_AGE
        } else {
            age_of_self
        };
        let age_of_system = this_run.relative_to(last_run).get();
        let ticks_since_system = if age_of_system > MAX_CHANGE_AGE {
            MAX_CHANGE_AGE
        } else {
            age_of_system
        };
        ticks_since_system > ticks_since_insert
    }

    /// Clamps this tick so that its age relative to `current` never exceeds
    /// [`MAX_CHANGE_AGE`], reporting whether a clamp took place. A clamped
    /// tick is only ever moved back in time, never past its true event.
    pub fn check_tick(&mut self, current: Tick) -> (clamped: bool)
        ensures
            clamped == (tick_distance(current, *old(self)) > MAX_CHANGE_AGE),
            *final(self) == old(self).spec_check_tick(current),
            tick_distance(current, *final(self)) <= MAX_CHANGE_AGE,
    {
        let age = current.relative_to(*self);
        if age.get() > MAX_CHANGE_AGE {
            *self = current.relative_to(Tick::new(MAX_CHANGE_AGE));
            true
        } else {
            false
        }
    }
}

/// A visit by the sweep is idempotent: a tick that one pass has already
/// clamped (or found young enough) is left exactly where it is by a second
/// pass against the same current tick.
pub proof fn lemma_check_tick_idempotent(t: Tick, current: Tick)
    ensures
        t.spec_check_tick(current).spec_check_tick(current) == t.spec_check_tick(current),
{
}

/// On ticks whose clamped ages differ, or where `self` is strictly older than
/// `last_run`, `is_newer_than` agrees with the plain comparison of wrapping
/// relative ages: `self` is newer exactly when its distance below `this_run`
/// is at most that of `last_run`. (When the two clamped ages coincide the
/// comparison is strict and reports "not newer", so the plain form does not
/// hold there.)
pub proof fn lemma_is_newer_than_by_relative_age(a: Tick, b: Tick, c: Tick)
    requires
        clamped_age(c, a) != clamped_age(c, b) || tick_distance(c, a) > tick_distance(c, b),
    ensures
        a.spec_is_newer_than(b, c) == (tick_distance(c, a) <= tick_distance(c, b)),
{
}

/// A tick at or behind the reference point is never reported as newer: once a
/// system's `last_run` has caught up with an event (its age from `this_run`
/// is no larger than the event's), the event is no longer added or changed.
pub proof fn lemma_not_newer_once_window_closed(a: Tick, b: Tick, c: Tick)
    requires
        tick_distance(c, b) <= tick_distance(c, a),
    ensures
        !a.spec_is_newer_than(b, c),
{
}

/// An event strictly younger than the observer's `last_run` and within the
/// tracked window is always reported as newer: fresh data is seen.
pub proof fn lemma_newer_when_within_open_window(a: Tick, b: Tick, c: Tick)
    requires
        tick_distance(c, a) < MAX_CHANGE_AGE,
        tick_distance(c, b) > tick_distance(c, a),
    ensures
        a.spec_is_newer_than(b, c),
{
}

/// Shifting every tick by the same wrapping offset does not change the
/// outcome of `is_newer_than`: the comparison depends only on relative
/// distances, so it survives the counter wrapping past `u32::MAX`.
pub proof fn lemma_is_newer_than_shift_invariant(a: Tick, b: Tick, c: Tick, d: u32)
    ensures
        ((Tick { tick: vstd::wrapping::u32_specs::wrapping_add(a.tick, d) }).spec_is_newer_than(
            (Tick { tick: vstd::wrapping::u32_specs::wrapping_add(b.tick, d) }),
            (Tick { tick: vstd::wrapping::u32_specs::wrapping_add(c.tick, d) }),
        ) == a.spec_is_newer_than(b, c)),
{
}

/// Freshly inserted data is seen: a slot whose ticks both carry the
/// insertion tick reports added and changed to every observer whose
/// `last_run` lies strictly behind the insertion, as long as the insertion
/// is still inside the tracked window.
pub proof fn lemma_fresh_pair_is_seen(insert: Tick, last_run: Tick, this_run: Tick)
    requires
        tick_distance(this_run, insert) < MAX_CHANGE_AGE,
        tick_distance(this_run, last_run) > tick_distance(this_run, insert),
    ensures
        (ComponentTicks { added: insert, changed: insert }).added.spec_is_newer_than(
            last_run,
            this_run,
        ),
        (ComponentTicks { added: insert, changed: insert }).changed.spec_is_newer_than(
            last_run,
            this_run,
        ),
{
}

/// A caught-up observer sees nothing: once a system's `last_run` is at or
/// past both ticks of a slot, the slot reports neither added nor changed,
/// however far the counter has moved on.
pub proof fn lemma_caught_up_pair_is_quiet(pair: ComponentTicks, last_run: Tick, this_run: Tick)
    requires
        tick_distance(this_run, last_run) <= tick_distance(this_run, pair.added),
        tick_distance(this_run, last_run) <= tick_distance(this_run, pair.changed),
    ensures
        !pair.added.spec_is_newer_than(last_run, this_run),
        !pair.changed.spec_is_newer_than(last_run, this_run),
{
}

/// The pair of ticks every tracked storage slot carries: when the slot's data
/// was inserted and when it was last written.
#[derive(Debug, Clone, Copy, PartialEq, Eq, Structural)]
pub struct ComponentTicks {
    pub added: Tick,
    pub changed: Tick,
}

impl ComponentTicks {
    /// The tick pair of data inserted at `change_detection_tick`: both ticks
    /// start at the insertion tick.
    pub fn new(change_detection_tick: Tick) -> (t: ComponentTicks)
        ensures
            t.added == change_detection_tick,
            t.changed == change_detection_tick,
    {
        ComponentTicks { added: change_detection_tick, changed: change_detection_tick }
    }

    /// Returns whether the slot was inserted inside the window `(last_run, this_run]`.
    pub fn is_added(&self, last_run: Tick, this_run: Tick) -> (r: bool)
        ensures
            r == self.added.spec_is_newer_than(last_run, this_run),
    {
        self.added.is_newer_than(last_run, this_run)
    }

    /// Returns whether the slot was inserted or written inside the window
    /// `(last_run, this_run]`.
    pub fn is_changed(&self, last_run: Tick, this_run: Tick) -> (r: bool)
        ensures
            r == self.changed.spec_is_newer_than(last_run, this_run),
    {
        self.changed.is_newer_than(last_run, this_run)
    }

    /// Records a write at `change_tick`.
    pub fn set_changed(&mut self, change_tick: Tick)
        ensures
            final(self).changed == change_tick,
            final(self).added == old(self).added,
    {
        self.changed = change_tick;
    }

    /// Sweep entry point: clamps both ticks of the pair against `current`,
    /// reporting whether either was clamped.
    pub fn check_ticks(&mut self, current: Tick) -> (clamped: bool)
        ensures
            final(self).added == old(self).added.spec_check_tick(current),
            final(self).changed == old(self).changed.spec_check_tick(current),
            tick_distance(current, final(self).added) <= MAX_CHANGE_AGE,
            tick_distance(current, final(self).changed) <= MAX_CHANGE_AGE,
            clamped == (tick_distance(current, old(self).added) > MAX_CHANGE_AGE || tick_distance(
                current,
                old(self).changed,
            ) > MAX_CHANGE_AGE),
    {
        let added_clamped = self.added.check_tick(current);
        let changed_clamped = self.changed.check_tick(current);
        added_clamped || changed_clamped
    }

    /// Returns the tick recording the most recent write to the slot.
    pub fn last_changed_tick(&self) -> (t: Tick)
        ensures
            t == self.changed,
    {
        self.changed
    }

    /// Returns the tick recording when the slot was inserted.
    pub fn added_tick(&self) -> (t: Tick)
        ensures
            t == self.added,
    {
        self.added
    }
}

} // verus!
