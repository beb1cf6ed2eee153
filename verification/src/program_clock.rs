//! The program clock: an anchor in UTC taken together with a monotonic stamp.
//!
//! The clock never reads a time source itself. Every operation takes the
//! current monotonic stamp from its caller, so that the clock's reading is a
//! function of the anchor and of that stamp alone.

use vstd::prelude::*;

verus! {

/// The program's estimate of UTC.
///
/// `anchor_utc` is the estimate, in nanoseconds since the Unix epoch, at the
/// moment when the monotonic clock showed `anchor_mono` nanoseconds.
#[derive(Clone, Copy, Debug, PartialEq, Eq, Structural)]
pub struct ProgramClock {
    pub anchor_utc: i64,
    pub anchor_mono: u64,
}

impl ProgramClock {
    /// The monotonic time that has passed since the anchor was taken. A stamp
    /// from before the anchor counts as no time passed.
    pub open spec fn elapsed(self, mono: int) -> int {
        if mono >= self.anchor_mono {
            mono - self.anchor_mono
        } else {
            0
        }
    }

    /// The clock's reading at monotonic stamp `mono`.
    pub open spec fn time_at(self, mono: int) -> int {
        self.anchor_utc + self.elapsed(mono)
    }

    /// Whether the reading at `mono` is representable.
    pub open spec fn readable_at(self, mono: int) -> bool {
        self.time_at(mono) <= i64::MAX
    }

    /// Whether the reading at `mono`, moved by `offset`, is representable.
    pub open spec fn adjustable_at(self, mono: int, offset: int) -> bool {
        i64::MIN <= self.time_at(mono) + offset <= i64::MAX
    }

    /// The clock after `offset` was applied at monotonic stamp `mono`.
    pub open spec fn adjusted(self, mono: u64, offset: int) -> ProgramClock {
        ProgramClock { anchor_utc: (self.time_at(mono as int) + offset) as i64, anchor_mono: mono }
    }

    /// A clock that shows `initial_utc` at monotonic stamp `mono_now`.
    pub fn new(initial_utc: i64, mono_now: u64) -> (clock: ProgramClock)
        ensures
            clock == (ProgramClock { anchor_utc: initial_utc, anchor_mono: mono_now }),
    {
        ProgramClock { anchor_utc: initial_utc, anchor_mono: mono_now }
    }

    /// Tells whether `now` may be called with `mono_now`.
    pub fn can_read(&self, mono_now: u64) -> (ok: bool)
        ensures
            ok == self.readable_at(mono_now as int),
    {
        let elapsed: u64 = if mono_now >= self.anchor_mono {
            mono_now - self.anchor_mono
        } else {
            0
        };
        self.anchor_utc as i128 + elapsed as i128 <= i64::MAX as i128
    }

    /// Tells whether `apply_offset` may be called with `mono_now` and `offset`.
    pub fn can_apply(&self, mono_now: u64, offset: i64) -> (ok: bool)
        ensures
            ok == self.adjustable_at(mono_now as int, offset as int),
    {
        let elapsed: u64 = if mono_now >= self.anchor_mono {
            mono_now - self.anchor_mono
        } else {
            0
        };
        let moved: i128 = self.anchor_utc as i128 + elapsed as i128 + offset as i128;
        i64::MIN as i128 <= moved && moved <= i64::MAX as i128
    }

    /// The clock's reading when the monotonic clock shows `mono_now`.
    pub fn now(&self, mono_now: u64) -> (t: i64)
        requires
            self.readable_at(mono_now as int),
        ensures
            t == self.time_at(mono_now as int),
    {
        let elapsed: u64 = if mono_now >= self.anchor_mono {
            mono_now - self.anchor_mono
        } else {
            0
        };
        (self.anchor_utc as i128 + elapsed as i128) as i64
    }

    /// Moves the clock by `offset` nanoseconds: the new anchor is the reading
    /// at `mono_now` plus `offset`, taken at `mono_now`.
    pub fn apply_offset(&mut self, mono_now: u64, offset: i64)
        requires
            old(self).adjustable_at(mono_now as int, offset as int),
        ensures
            *final(self) == old(self).adjusted(mono_now, offset as int),
            final(self).anchor_utc == old(self).time_at(mono_now as int) + offset,
            final(self).anchor_mono == mono_now,
    {
        let elapsed: u64 = if mono_now >= self.anchor_mono {
            mono_now - self.anchor_mono
        } else {
            0
        };
        let moved: i128 = self.anchor_utc as i128 + elapsed as i128 + offset as i128;
        self.anchor_utc = moved as i64;
        self.anchor_mono = mono_now;
    }
}

/// While no offset is applied, the clock does not run backwards: a later
/// monotonic stamp gives a reading that is not earlier.
pub proof fn lemma_reading_monotone(clock: ProgramClock, earlier: int, later: int)
    requires
        earlier <= later,
    ensures
        clock.time_at(earlier) <= clock.time_at(later),
{
}

/// The clock does not run backwards across an offset that is not negative: a
/// reading taken before the offset was applied is not later than one taken
/// after it.
pub proof fn lemma_reading_monotone_across_offset(
    clock: ProgramClock,
    before: int,
    applied_at: u64,
    offset: int,
    after: int,
)
    requires
        before <= applied_at <= after,
        0 <= offset,
        clock.adjustable_at(applied_at as int, offset),
    ensures
        clock.time_at(before) <= clock.adjusted(applied_at, offset).time_at(after),
{
}

/// The clock after the offsets of `steps` were applied one after another,
/// each step being a monotonic stamp and the offset applied at it.
pub open spec fn after_offsets(clock: ProgramClock, steps: Seq<(u64, int)>) -> ProgramClock
    decreases steps.len(),
{
    if steps.len() == 0 {
        clock
    } else {
        after_offsets(clock, steps.drop_last()).adjusted(steps.last().0, steps.last().1)
    }
}

/// Whether each offset of `steps` can be applied in its turn: the reading
/// that it moves stays representable.
pub open spec fn offsets_applicable(clock: ProgramClock, steps: Seq<(u64, int)>) -> bool
    decreases steps.len(),
{
    steps.len() == 0 || (offsets_applicable(clock, steps.drop_last()) && after_offsets(
        clock,
        steps.drop_last(),
    ).adjustable_at(steps.last().0 as int, steps.last().1))
}

/// Whether the stamps of `steps` do not decrease and none of its offsets is
/// negative.
pub open spec fn steps_forward(steps: Seq<(u64, int)>) -> bool {
    &&& forall|i: int, j: int| 0 <= i <= j < steps.len() ==> steps[i].0 <= steps[j].0
    &&& forall|i: int| 0 <= i < steps.len() ==> 0 <= (#[trigger] steps[i]).1
}

/// The clock does not run backwards through any number of offsets that are
/// not negative: a reading taken before the first of them is not later than
/// a reading taken after the last.
pub proof fn lemma_reading_monotone_through_offsets(
    clock: ProgramClock,
    before: int,
    steps: Seq<(u64, int)>,
    after: int,
)
    requires
        before <= after,
        steps_forward(steps),
        offsets_applicable(clock, steps),
        forall|i: int| 0 <= i < steps.len() ==> before <= (#[trigger] steps[i]).0 <= after,
    ensures
        clock.time_at(before) <= after_offsets(clock, steps).time_at(after),
    decreases steps.len(),
{
    if steps.len() > 0 {
        let earlier = steps.drop_last();
        let last = steps.last();
        assert(forall|i: int| 0 <= i < earlier.len() ==> earlier[i] == steps[i]);
        assert(steps[steps.len() - 1] == last);
        lemma_reading_monotone_through_offsets(clock, before, earlier, last.0 as int);
        lemma_offset_jump(
            after_offsets(clock, earlier),
            last.0,
            last.1,
            (after - last.0) as nat,
        );
    }
}

/// Applying `offset` at monotonic stamp `applied_at` makes the clock jump by
/// exactly `offset`: a reading `later` nanoseconds afterwards equals the
/// reading at `applied_at` plus `offset` plus `later`.
pub proof fn lemma_offset_jump(clock: ProgramClock, applied_at: u64, offset: int, later: nat)
    requires
        clock.adjustable_at(applied_at as int, offset),
    ensures
        clock.adjusted(applied_at, offset).time_at(applied_at + later) == clock.time_at(
            applied_at as int,
        ) + offset + later,
{
}

} // verus!
