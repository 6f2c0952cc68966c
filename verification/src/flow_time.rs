//! The adaptive-ratio technique: focus for as long as it lasts, then rest
//! for a fixed fraction of the time spent in focus.

use vstd::prelude::*;

use crate::duration::Duration;
use crate::error::Error;
use crate::time_management_technique::TimeManagementTechnique;
use crate::time_tracking_technique::TimeTrackingTechnique;
use crate::State;
use crate::TimeManagementEngine;
use crate::TimeTrackingEngine;

verus! {

/// The adaptive-ratio technique: a break lasts the time spent in focus
/// divided by `break_factor`.
///
/// The factor is never zero: the type holds no value for which it is.
#[derive(Debug, Clone, Copy, PartialEq, Eq)]
pub struct FlowTime {
    break_factor: u32,
}

/// What a [`FlowTime`] holds, as a plain value.
pub struct FlowTimeView {
    /// By how much a break is shorter than the focus phase before it.
    pub break_factor: nat,
}

impl FlowTimeView {
    /// The factor is one that can be divided by.
    pub open spec fn wf(self) -> bool {
        self.break_factor > 0
    }

    /// The break that is earned by `time_spent` in focus: that time divided
    /// by the factor, rounded down to a whole nanosecond.
    pub open spec fn break_duration(self, time_spent: Duration) -> Duration {
        Duration { nanos: (time_spent.nanos as nat / self.break_factor) as u128 }
    }

    /// The transition rule: the phase that follows `state`, which took
    /// `time_spent`.
    ///
    /// A focus phase without a target follows a break and opens a session.
    /// A break follows a focus phase, with the target that the time spent
    /// in focus has earned.
    pub open spec fn next(self, state: Option<State>, time_spent: Duration) -> State {
        match state {
            Some(State::Focus(_)) => State::Break(Some(self.break_duration(time_spent))),
            _ => State::Focus(None),
        }
    }
}

impl View for FlowTime {
    type V = FlowTimeView;

    closed spec fn view(&self) -> FlowTimeView {
        FlowTimeView { break_factor: self.break_factor as nat }
    }
}

impl FlowTime {
    /// What every value of the type satisfies.
    #[verifier::type_invariant]
    pub open spec fn inv(self) -> bool {
        self@.wf()
    }

    /// The phase that follows `state`, which took `time_spent`, and the
    /// technique, which a transition leaves as it is.
    pub open spec fn next(self, state: Option<State>, time_spent: Duration) -> (State, FlowTime) {
        (self@.next(state, time_spent), self)
    }

    /// Makes the technique whose breaks are `break_factor` times shorter
    /// than the focus phases before them.
    ///
    /// A factor of zero describes no technique, and is the only one refused.
    pub fn new(break_factor: u32) -> (made: Result<Self, Error>)
        ensures
            break_factor == 0 <==> made is Err,
            made matches Err(error) ==> error == Error::InvalidConfiguration,
            made matches Ok(technique) ==> technique@.break_factor == break_factor,
    {
        if break_factor == 0 {
            return Err(Error::InvalidConfiguration);
        }
        Ok(Self { break_factor })
    }
}

impl TimeTrackingTechnique for FlowTime {
    open spec fn spec_switch(self, state: Option<State>, time_spent: Duration) -> (State, Self) {
        self.next(state, time_spent)
    }

    /// Begins the phase that follows `state`, which took `time_spent`.
    fn switch(self, state: Option<State>, time_spent: Duration) -> (next: (State, Self))
        ensures
            next.0 == self@.next(state, time_spent),
            next.1 == self,
    {
        proof {
            use_type_invariant(&self);
        }
        match state {
            Some(State::Focus(_)) => (State::Break(Some(time_spent / self.break_factor)), self),
            Some(State::Break(_)) | None => (State::Focus(None), self),
        }
    }
}

impl TimeManagementTechnique for FlowTime {
    open spec fn spec_switch(self, state: Option<State>, time_spent: Duration) -> (State, Self) {
        self.next(state, time_spent)
    }

    /// Begins the phase that follows `state`, which took `time_spent`.
    fn switch(&mut self, state: &Option<State>, time_spent: Duration) -> (next: State)
        ensures
            next == old(self)@.next(*state, time_spent),
            *final(self) == *old(self),
    {
        proof {
            use_type_invariant(&*self);
        }
        match state {
            Some(State::Focus(_)) => State::Break(Some(time_spent / self.break_factor)),
            Some(State::Break(_)) | None => State::Focus(None),
        }
    }
}

impl FlowTimeView {
    /// What holds of the phase `state` that a session on this technique is
    /// in once a switch was made for each entry of `elapsed`.
    ///
    /// Focus phases and breaks take turns, focus first. No focus phase has
    /// a target. Each break has the target that the focus phase before it
    /// has earned.
    pub open spec fn in_session(self, elapsed: Seq<Duration>, state: Option<State>) -> bool {
        &&& elapsed.len() == 0 ==> state is None
        &&& elapsed.len() % 2 == 1 ==> state == Some(State::Focus(None))
        &&& elapsed.len() > 0 && elapsed.len() % 2 == 0 ==> state == Some(
            State::Break(Some(self.break_duration(elapsed.last()))),
        )
    }

    /// The break is the exact quotient: the longest span of whole
    /// nanoseconds that fits `break_factor` times into the time spent.
    pub proof fn lemma_break_is_exact_quotient(self, time_spent: Duration)
        requires
            self.wf(),
        ensures
            self.break_duration(time_spent).nanos == time_spent.nanos as nat / self.break_factor,
            self.break_duration(time_spent).nanos * self.break_factor <= time_spent.nanos,
            time_spent.nanos < (self.break_duration(time_spent).nanos + 1) * self.break_factor,
    {
        let total = time_spent.nanos as nat;
        let factor = self.break_factor;
        let quotient = total / factor;
        assert(quotient <= total && quotient * factor <= total < (quotient + 1) * factor)
            by (nonlinear_arith)
            requires
                factor > 0,
                quotient == total / factor,
        ;
    }

    /// A break of the earned length follows every focus phase, and a focus
    /// phase without a target follows everything else.
    pub proof fn lemma_break_follows_focus(self, state: Option<State>, time_spent: Duration)
        ensures
            state matches Some(State::Focus(_)) ==> self.next(state, time_spent) == State::Break(
                Some(self.break_duration(time_spent)),
            ),
            !(state matches Some(State::Focus(_))) ==> self.next(state, time_spent) == State::Focus(
                None,
            ),
    {
    }
}

impl FlowTime {
    /// Two techniques that hold the same are the same technique.
    pub proof fn lemma_view_determines(self, other: FlowTime)
        requires
            self@ == other@,
        ensures
            self == other,
    {
    }

    /// Advanced in place or by value, the technique decides the same.
    pub proof fn lemma_decides_alike(self, state: Option<State>, time_spent: Duration)
        ensures
            TimeManagementTechnique::spec_switch(self, state, time_spent) == self.next(
                state,
                time_spent,
            ),
            TimeTrackingTechnique::spec_switch(self, state, time_spent) == self.next(
                state,
                time_spent,
            ),
    {
    }

    /// However many switches an engine of either kind makes on a technique,
    /// the technique stays as it is, a focus phase without a target follows
    /// every break, and every focus phase is followed by the break that the
    /// time spent in it has earned.
    pub proof fn lemma_session(technique: FlowTime, elapsed: Seq<Duration>)
        ensures
            ({
                let engine = TimeManagementEngine::spec_new(technique).run(elapsed);
                engine.mode == technique && technique@.in_session(elapsed, engine.state)
            }),
            ({
                let engine = TimeTrackingEngine::spec_new(technique).run(elapsed);
                engine.mode == technique && technique@.in_session(elapsed, engine.state)
            }),
        decreases elapsed.len(),
    {
        if elapsed.len() > 0 {
            Self::lemma_session(technique, elapsed.drop_last());
        }
    }
}

} // verus!
