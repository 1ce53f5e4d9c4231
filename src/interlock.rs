use vstd::prelude::*;

use crate::interlockable::Interlockable;
use crate::state::{Error, InterlockState};

verus! {

/// The latch after an ordinary update: asserted when it was not and the value
/// is no longer clear, otherwise unchanged.
pub open spec fn latch_after_set(state: InterlockState, now_clear: bool) -> InterlockState {
    if !now_clear && state == InterlockState::Inactive {
        InterlockState::Active
    } else {
        state
    }
}

/// The latch after an attempt to clear it: released when the value is clear,
/// otherwise unchanged.
pub open spec fn latch_after_clear_attempt(state: InterlockState, is_clear: bool) -> InterlockState {
    if is_clear {
        InterlockState::Inactive
    } else {
        state
    }
}

/// What an attempt to clear the latch reports.
pub open spec fn clear_attempt_result(is_clear: bool) -> Result<(), Error> {
    if is_clear {
        Ok(())
    } else {
        Err(Error::ClearError)
    }
}

/// The interlock. Owns the monitored value and the latch that guards it.
pub struct Interlock<T: Interlockable + Clone> {
    inner: T,
    state: InterlockState,
}

impl<T: Interlockable + Clone> Interlock<T> {
    /// The monitored value.
    pub closed spec fn spec_inner(&self) -> T {
        self.inner
    }

    /// The latch.
    pub closed spec fn spec_state(&self) -> InterlockState {
        self.state
    }

    /// Wraps `inner` with the latch inactive, whether or not `inner` is clear.
    pub fn new(inner: T) -> (r: Self)
        ensures
            r.spec_inner() == inner,
            r.spec_state() == InterlockState::Inactive,
    {
        Interlock { inner, state: InterlockState::Inactive }
    }

    /// Attempts to clear the interlock. Returns `Ok(())` and releases the latch
    /// when the monitored value is clear; returns `Err(Error::ClearError)` and
    /// leaves the latch as it was otherwise.
    pub fn try_clear_interlock(&mut self) -> (r: Result<(), Error>)
        ensures
            final(self).spec_inner() == old(self).spec_inner(),
            r == clear_attempt_result(old(self).spec_inner().spec_is_clear()),
            final(self).spec_state() == latch_after_clear_attempt(
                old(self).spec_state(),
                old(self).spec_inner().spec_is_clear(),
            ),
    {
        if self.inner.is_clear() {
            self.state = InterlockState::Inactive;
            Ok(())
        } else {
            Err(Error::ClearError)
        }
    }

    /// Applies an ordinary update to the monitored value, and asserts the
    /// interlock if the value is no longer clear.
    pub fn set(&mut self, new_value: T::UpdateType)
        ensures
            final(self).spec_inner() == old(self).spec_inner().spec_set(new_value),
            final(self).spec_state() == latch_after_set(
                old(self).spec_state(),
                final(self).spec_inner().spec_is_clear(),
            ),
    {
        self.inner.set(new_value);
        if !self.inner.is_clear() && self.state == InterlockState::Inactive {
            self.state = InterlockState::Active;
        }
    }

    /// Applies an acknowledging update to the monitored value. The latch is left
    /// as it is: releasing it takes a separate [`Self::try_clear_interlock`].
    pub fn clear(&mut self, new_value: T::UpdateType)
        ensures
            final(self).spec_inner() == old(self).spec_inner().spec_clear(new_value),
            final(self).spec_state() == old(self).spec_state(),
    {
        self.inner.clear(new_value);
    }

    /// The state of the interlock.
    pub fn get_state(&self) -> (r: InterlockState)
        ensures
            r == self.spec_state(),
    {
        self.state
    }

    /// A copy of the monitored value, made by its `clone`.
    pub fn get_inner(&self) -> (r: T)
        ensures
            cloned(self.spec_inner(), r),
    {
        self.inner.clone()
    }

    /// A shared reference to the monitored value.
    pub fn get_inner_ref(&self) -> (r: &T)
        ensures
            *r == self.spec_inner(),
    {
        &self.inner
    }
}

/// The latch after ordinary updates with each of `updates` in turn, starting
/// from `state` with the monitored value `value`.
pub open spec fn latch_after_sets<T: Interlockable>(
    state: InterlockState,
    value: T,
    updates: Seq<T::UpdateType>,
) -> InterlockState
    decreases updates.len(),
{
    if updates.len() == 0 {
        state
    } else {
        let next = value.spec_set(updates[0]);
        latch_after_sets(latch_after_set(state, next.spec_is_clear()), next, updates.drop_first())
    }
}

/// An attempt to clear succeeds on a clear value and leaves the latch inactive.
pub proof fn lemma_clear_attempt_on_clear_value(state: InterlockState)
    ensures
        clear_attempt_result(true) == Ok::<(), Error>(()),
        latch_after_clear_attempt(state, true) == InterlockState::Inactive,
{
}

/// An attempt to clear fails on a value that is not clear and leaves the latch
/// as it was.
pub proof fn lemma_clear_attempt_on_unclear_value(state: InterlockState)
    ensures
        clear_attempt_result(false) == Err::<(), Error>(Error::ClearError),
        latch_after_clear_attempt(state, false) == state,
{
}

/// Starting inactive on a clear value, an ordinary update that makes the value
/// not clear asserts the latch.
pub proof fn lemma_set_asserts_latch<T: Interlockable>(value: T, update: T::UpdateType)
    requires
        value.spec_is_clear(),
        !value.spec_set(update).spec_is_clear(),
    ensures
        latch_after_set(InterlockState::Inactive, value.spec_set(update).spec_is_clear())
            == InterlockState::Active,
{
}

/// Once asserted, the latch stays asserted through any ordinary updates,
/// whether they make the value clear again or keep it not clear.
pub proof fn lemma_latch_holds_through_sets<T: Interlockable>(
    value: T,
    updates: Seq<T::UpdateType>,
)
    ensures
        latch_after_sets(InterlockState::Active, value, updates) == InterlockState::Active,
    decreases updates.len(),
{
    if updates.len() > 0 {
        lemma_latch_holds_through_sets(value.spec_set(updates[0]), updates.drop_first());
    }
}

/// Once asserted, the latch is released by a successful attempt to clear it,
/// and by nothing else: an ordinary update that makes the value clear keeps it
/// asserted, and an attempt to clear that follows succeeds and releases it.
pub proof fn lemma_latch_released_only_by_clear_attempt<T: Interlockable>(
    value: T,
    update: T::UpdateType,
)
    requires
        value.spec_set(update).spec_is_clear(),
    ensures
        latch_after_set(InterlockState::Active, value.spec_set(update).spec_is_clear())
            == InterlockState::Active,
        clear_attempt_result(value.spec_set(update).spec_is_clear()) == Ok::<(), Error>(()),
        latch_after_clear_attempt(
            latch_after_set(InterlockState::Active, value.spec_set(update).spec_is_clear()),
            value.spec_set(update).spec_is_clear(),
        ) == InterlockState::Inactive,
{
}

} // verus!
