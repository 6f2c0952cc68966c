//! What a technique that is advanced by value has to offer.

use vstd::prelude::*;

use crate::duration::Duration;
use crate::State;

verus! {

/// A time-management technique that is advanced by value: a transition
/// takes the technique and hands back the one to go on with.
pub trait TimeTrackingTechnique: Sized {
    /// What the technique decides: the phase that follows `state`, which
    /// took `time_spent`, and the technique once that phase has begun.
    ///
    /// `state` is `None` where no phase came before.
    spec fn spec_switch(self, state: Option<State>, time_spent: Duration) -> (State, Self);

    /// Ends the phase `state`, which took `time_spent`, and begins the next.
    ///
    /// The outcome is the one that [`Self::spec_switch`] gives: it depends
    /// on the technique, the phase and the time spent, and on nothing else.
    fn switch(self, state: Option<State>, time_spent: Duration) -> (next: (State, Self))
        ensures
            next == self.spec_switch(state, time_spent),
    ;
}

} // verus!
