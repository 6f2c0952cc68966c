//! What a technique that is advanced in place has to offer.

use std::fmt::Debug;
use vstd::prelude::*;

use crate::duration::Duration;
use crate::State;

verus! {

/// A time-management technique that is advanced in place: a transition
/// leaves the technique as it has to be for the next one.
pub trait TimeManagementTechnique: Debug + Sized {
    /// What the technique decides: the phase that follows `state`, which
    /// took `time_spent`, and the technique once that phase has begun.
    ///
    /// `state` is `None` where no phase came before.
    spec fn spec_switch(self, state: Option<State>, time_spent: Duration) -> (State, Self);

    /// Ends the phase `state`, which took `time_spent`, and begins the next.
    ///
    /// The phase returned and the technique left behind are the ones that
    /// [`Self::spec_switch`] gives: they depend on the technique as it was,
    /// the phase and the time spent, and on nothing else.
    fn switch(&mut self, state: &Option<State>, time_spent: Duration) -> (next: State)
        ensures
            (next, *final(self)) == old(self).spec_switch(*state, time_spent),
    ;
}

} // verus!
