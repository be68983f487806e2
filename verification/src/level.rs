use vstd::prelude::*;

use crate::fixed_width::FixedWidth;
use crate::framework::Observer;
use crate::framework::SensorGroupInner;
use crate::framework::SensorInner;

verus! {

/// Two-valued classification of a reading against a threshold.
#[allow(non_camel_case_types)]
#[derive(Debug, PartialEq, Eq, Structural, Clone, Copy)]
pub enum LevelState {
    OVER,
    UNDER,
}

/// Classification of `val` against `limit`: `OVER` exactly when `val > limit`.
/// The boundary `val == limit` classifies as `UNDER` — inclusive on the lower
/// side, exclusive on the upper.
pub open spec fn spec_check(val: int, limit: int) -> LevelState {
    if val > limit {
        LevelState::OVER
    } else {
        LevelState::UNDER
    }
}

/// Stateless threshold check: compares a value to a single limit.
pub fn check<T: FixedWidth>(val: T, limit: T) -> (r: LevelState)
    ensures
        r == spec_check(val.as_math(), limit.as_math()),
{
    if val.is_greater(limit) {
        LevelState::OVER
    } else {
        LevelState::UNDER
    }
}

/// The boundary is inclusive on the under side: a value compared against
/// itself always classifies as `UNDER`.
pub proof fn lemma_check_boundary_under(val: int)
    ensures
        spec_check(val, val) == LevelState::UNDER,
{
}

/// Monotonicity: if some value classifies as `OVER` against a limit, so does
/// every strictly larger value.
pub proof fn lemma_check_monotone(val1: int, val2: int, limit: int)
    requires
        val1 > val2,
        spec_check(val2, limit) == LevelState::OVER,
    ensures
        spec_check(val1, limit) == LevelState::OVER,
{
}

/// The higher of two thresholds supplied in either order: it becomes the
/// monitor's limit.
pub open spec fn spec_norm_limit(set: int, reset: int) -> int {
    if set < reset {
        reset
    } else {
        set
    }
}

/// The lower of two thresholds supplied in either order: it becomes the
/// monitor's hysteresis point.
pub open spec fn spec_norm_hyst(set: int, reset: int) -> int {
    if set < reset {
        set
    } else {
        reset
    }
}

/// One transition of the hysteresis machine: while `OVER` the value is held
/// against the lower threshold, while `UNDER` against the higher one, so the
/// dead band `(hyst, limit]` admits no transition from either side.
pub open spec fn spec_step(state: LevelState, limit: int, hyst: int, val: int) -> LevelState {
    match state {
        LevelState::OVER => spec_check(val, hyst),
        LevelState::UNDER => spec_check(val, limit),
    }
}

/// The state after feeding a whole sequence of readings, first one first.
pub open spec fn spec_run(state: LevelState, limit: int, hyst: int, vals: Seq<int>) -> LevelState
    decreases vals.len(),
{
    if vals.len() == 0 {
        state
    } else {
        spec_run(spec_step(state, limit, hyst, vals[0]), limit, hyst, vals.drop_first())
    }
}

/// Monitor of a level with hysteresis: holds the current classification and
/// the two thresholds, and re-classifies each reading against the threshold
/// that belongs to the side it is currently on. The classification is the
/// single authoritative copy, reachable only through the methods below.
#[derive(Debug, Clone)]
pub struct LevelHyst<T: FixedWidth> {
    level_state: LevelState,
    limit: T,
    hyst: T,
}

impl<T: FixedWidth> LevelHyst<T> {
    /// Current classification.
    pub closed spec fn state(self) -> LevelState {
        self.level_state
    }

    /// The higher threshold, as a mathematical integer.
    pub closed spec fn limit_val(self) -> int {
        self.limit.as_math()
    }

    /// The lower threshold, as a mathematical integer.
    pub closed spec fn hyst_val(self) -> int {
        self.hyst.as_math()
    }

    /// The thresholds are ordered, so the dead band `(hyst, limit]` is well
    /// formed. Established at construction and preserved by every method.
    pub open spec fn wf(self) -> bool {
        self.hyst_val() <= self.limit_val()
    }

    /// Builds a monitor from two thresholds and an initial classification.
    /// The thresholds are normalized: whichever of `set` and `reset` is
    /// higher becomes the limit, the other the hysteresis point. The initial
    /// classification is taken as given, not derived from the thresholds.
    pub fn new(set: T, reset: T, initial: LevelState) -> (r: Self)
        ensures
            r.wf(),
            r.state() == initial,
            r.limit_val() == spec_norm_limit(set.as_math(), reset.as_math()),
            r.hyst_val() == spec_norm_hyst(set.as_math(), reset.as_math()),
    {
        if set.is_less(reset) {
            Self { level_state: initial, limit: reset, hyst: set }
        } else {
            Self { level_state: initial, limit: set, hyst: reset }
        }
    }

    /// Unconditional override of the classification, bypassing the threshold
    /// logic; the thresholds are untouched.
    pub fn set_state(&mut self, state: LevelState)
        ensures
            final(self).state() == state,
            final(self).limit_val() == old(self).limit_val(),
            final(self).hyst_val() == old(self).hyst_val(),
            old(self).wf() ==> final(self).wf(),
    {
        self.level_state = state;
    }

    /// Classifies `val` against the threshold of the side the monitor is on,
    /// stores the outcome unconditionally, and returns it.
    pub fn check(&mut self, val: T) -> (r: LevelState)
        ensures
            r == spec_step(old(self).state(), old(self).limit_val(), old(self).hyst_val(), val.as_math()),
            final(self).state() == r,
            final(self).limit_val() == old(self).limit_val(),
            final(self).hyst_val() == old(self).hyst_val(),
            old(self).wf() ==> final(self).wf(),
    {
        let a = match self.level_state {
            LevelState::OVER => check(val, self.hyst),
            LevelState::UNDER => check(val, self.limit),
        };
        self.level_state = a;
        a
    }

    /// Pure read of the current classification.
    pub fn get_state(&self) -> (r: LevelState)
        ensures
            r == self.state(),
    {
        self.level_state
    }
}

impl<T: FixedWidth> Observer<T, SensorGroupInner<T>> for LevelHyst<T> {
    /// Feeds the aggregate's `max` into the hysteresis check; the pushed
    /// `val` is ignored, the aggregate already carries the relevant scalar.
    fn dispatch(&mut self, sender_internals: &SensorGroupInner<T>, val: T)
        ensures
            final(self).state() == spec_step(
                old(self).state(),
                old(self).limit_val(),
                old(self).hyst_val(),
                sender_internals.max.as_math(),
            ),
            final(self).limit_val() == old(self).limit_val(),
            final(self).hyst_val() == old(self).hyst_val(),
    {
        let _ = self.check(sender_internals.get_max());
        let _ = val;
    }
}

impl<T: FixedWidth> Observer<T, SensorInner<T>> for LevelHyst<T> {
    /// Feeds the single reading `val` of the context into the hysteresis
    /// check; the pushed `val` is ignored in the same way.
    fn dispatch(&mut self, sender_internals: &SensorInner<T>, val: T)
        ensures
            final(self).state() == spec_step(
                old(self).state(),
                old(self).limit_val(),
                old(self).hyst_val(),
                sender_internals.val.as_math(),
            ),
            final(self).limit_val() == old(self).limit_val(),
            final(self).hyst_val() == old(self).hyst_val(),
    {
        let _ = self.check(sender_internals.val);
        let _ = val;
    }
}

/// Supplying the two thresholds to the constructor in either order yields the
/// same limit and the same hysteresis point, and therefore the same state
/// after any subsequent sequence of checks from any starting state.
pub proof fn lemma_new_order_insensitive(a: int, b: int)
    ensures
        spec_norm_limit(a, b) == spec_norm_limit(b, a),
        spec_norm_hyst(a, b) == spec_norm_hyst(b, a),
        forall|s: LevelState, vals: Seq<int>|
            spec_run(s, spec_norm_limit(a, b), spec_norm_hyst(a, b), vals)
                == spec_run(s, spec_norm_limit(b, a), spec_norm_hyst(b, a), vals),
{
}

/// No chatter on the over side: while the state is `OVER`, a sequence of
/// readings each strictly above the hysteresis point leaves it `OVER`.
pub proof fn lemma_no_chatter_over(limit: int, hyst: int, vals: Seq<int>)
    requires
        forall|i: int| 0 <= i < vals.len() ==> vals[i] > hyst,
    ensures
        spec_run(LevelState::OVER, limit, hyst, vals) == LevelState::OVER,
    decreases vals.len(),
{
    if vals.len() > 0 {
        assert(spec_step(LevelState::OVER, limit, hyst, vals[0]) == LevelState::OVER);
        assert forall|i: int| 0 <= i < vals.drop_first().len() implies vals.drop_first()[i]
            > hyst by {
            assert(vals.drop_first()[i] == vals[i + 1]);
        }
        lemma_no_chatter_over(limit, hyst, vals.drop_first());
    }
}

/// No chatter on the under side: while the state is `UNDER`, a sequence of
/// readings each at or below the limit leaves it `UNDER`.
pub proof fn lemma_no_chatter_under(limit: int, hyst: int, vals: Seq<int>)
    requires
        forall|i: int| 0 <= i < vals.len() ==> vals[i] <= limit,
    ensures
        spec_run(LevelState::UNDER, limit, hyst, vals) == LevelState::UNDER,
    decreases vals.len(),
{
    if vals.len() > 0 {
        assert(spec_step(LevelState::UNDER, limit, hyst, vals[0]) == LevelState::UNDER);
        assert forall|i: int| 0 <= i < vals.drop_first().len() implies vals.drop_first()[i]
            <= limit by {
            assert(vals.drop_first()[i] == vals[i + 1]);
        }
        lemma_no_chatter_under(limit, hyst, vals.drop_first());
    }
}

} // verus!
