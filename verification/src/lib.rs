//! A session-timing engine: it keeps track of whether a session is in a focus
//! or a break phase, and works out how long the next phase is meant to last
//! under a chosen time-management technique.
//!
//! The engine measures nothing itself. Its caller reports how long the phase
//! that just ended took, and gets back the target of the phase that begins.
//!
//! Two techniques are at hand: [`pomodoro::Pomodoro`], a fixed cycle of focus
//! phases, short breaks and long breaks, and [`flow_time::FlowTime`], where a
//! break lasts a set fraction of the focus phase before it. A technique can
//! be advanced in place ([`TimeManagementTechnique`], driven by a
//! [`TimeManagementEngine`]) or by value ([`TimeTrackingTechnique`], driven by
//! a [`TimeTrackingEngine`]); it decides the same either way.

use vstd::prelude::*;

pub mod duration;
pub mod error;
pub mod flow_time;
pub mod pomodoro;
pub mod time_management_technique;
pub mod time_tracking_technique;

use crate::duration::Duration;
use crate::time_management_technique::TimeManagementTechnique;
use crate::time_tracking_technique::TimeTrackingTechnique;

verus! {

/// The phase a session is in, with the time the phase is meant to last.
///
/// No target means that the caller decides when the phase ends.
#[derive(Debug, PartialEq, Eq, Clone, Copy)]
pub enum State {
    /// Time to work, for the target given.
    Focus(Option<Duration>),
    /// Time to rest, for the target given.
    Break(Option<Duration>),
}

impl State {
    /// The target that the phase carries, whichever phase it is.
    pub open spec fn spec_duration(self) -> Option<Duration> {
        match self {
            State::Focus(target) => target,
            State::Break(target) => target,
        }
    }

    /// The target that the phase carries, whichever phase it is.
    #[verifier::when_used_as_spec(spec_duration)]
    pub fn duration(self) -> (target: Option<Duration>)
        ensures
            target == self.spec_duration(),
    {
        match self {
            State::Focus(target) | State::Break(target) => target,
        }
    }
}

/// Drives a technique that is advanced in place.
///
/// `state` is `None` until the first switch, and from then on the phase that
/// the last switch began.
#[derive(Debug)]
pub struct TimeManagementEngine<T: TimeManagementTechnique> {
    pub mode: T,
    pub state: Option<State>,
}

impl<T: TimeManagementTechnique> TimeManagementEngine<T> {
    /// The engine that has not switched yet.
    pub open spec fn spec_new(technique: T) -> Self {
        Self { mode: technique, state: None }
    }

    /// The target of the phase that one switch begins, and the engine after
    /// that switch.
    pub open spec fn spec_switch(self, time_spent: Duration) -> (Option<Duration>, Self) {
        let (state, mode) = self.mode.spec_switch(self.state, time_spent);
        (state.spec_duration(), Self { mode, state: Some(state) })
    }

    /// The engine after one switch for each entry of `elapsed`, in order.
    pub open spec fn run(self, elapsed: Seq<Duration>) -> Self
        decreases elapsed.len(),
    {
        if elapsed.len() == 0 {
            self
        } else {
            self.run(elapsed.drop_last()).spec_switch(elapsed.last()).1
        }
    }

    /// What the switches of [`Self::run`] report, in order: the phase that
    /// each one begins, and the target it hands back.
    pub open spec fn outputs(self, elapsed: Seq<Duration>) -> Seq<(State, Option<Duration>)> {
        Seq::new(
            elapsed.len(),
            |i: int|
                {
                    let switched = self.run(elapsed.take(i)).spec_switch(elapsed[i]);
                    (switched.1.state.unwrap(), switched.0)
                },
        )
    }

    /// Replaying the same reports of time spent on engines made from the
    /// same technique gives the same phases and targets in the same order,
    /// and leaves the same engine.
    pub proof fn lemma_replay_repeats(
        technique: T,
        elapsed: Seq<Duration>,
        same_technique: T,
        same_elapsed: Seq<Duration>,
    )
        requires
            technique == same_technique,
            elapsed == same_elapsed,
        ensures
            Self::spec_new(technique).outputs(elapsed) == Self::spec_new(same_technique).outputs(
                same_elapsed,
            ),
            Self::spec_new(technique).run(elapsed) == Self::spec_new(same_technique).run(
                same_elapsed,
            ),
    {
    }

    /// The phase is unknown only as long as no switch was made. Each switch
    /// reports the phase that the engine is in once it is made, and hands
    /// back the target that this phase carries.
    pub proof fn lemma_outputs_follow_run(self, elapsed: Seq<Duration>)
        ensures
            elapsed.len() == 0 ==> self.run(elapsed) == self,
            elapsed.len() > 0 ==> self.run(elapsed).state is Some,
            self.outputs(elapsed).len() == elapsed.len(),
            forall|i: int|
                0 <= i < elapsed.len() ==> {
                    &&& self.run(elapsed.take(i + 1)).state == Some(
                        (#[trigger] self.outputs(elapsed)[i]).0,
                    )
                    &&& self.outputs(elapsed)[i].1 == self.outputs(elapsed)[i].0.spec_duration()
                },
    {
        assert forall|i: int| 0 <= i < elapsed.len() implies self.run(elapsed.take(i + 1)).state
            == Some((#[trigger] self.outputs(elapsed)[i]).0) by {
            assert(elapsed.take(i + 1).drop_last() == elapsed.take(i));
        }
    }

    /// Creates an engine that has not switched yet.
    pub fn new(technique: T) -> (engine: Self)
        ensures
            engine == Self::spec_new(technique),
    {
        Self { mode: technique, state: None }
    }

    /// Ends the current phase, which took `time_spent`, and begins the next.
    ///
    /// Returns the target of the phase that begins, if the technique sets
    /// one, and the engine in that phase.
    pub fn switch(self, time_spent: Duration) -> (next: (Option<Duration>, Self))
        ensures
            next == self.spec_switch(time_spent),
            next.1.state is Some,
            next.0 == next.1.state.unwrap().spec_duration(),
    {
        let mut mode = self.mode;
        let new_state = mode.switch(&self.state, time_spent);

        let duration = new_state.duration();

        (duration, Self { state: Some(new_state), mode })
    }
}

/// Drives a technique that is advanced by value.
///
/// `state` is `None` until the first switch, and from then on the phase that
/// the last switch began.
#[derive(Debug)]
pub struct TimeTrackingEngine<T: TimeTrackingTechnique> {
    pub mode: T,
    pub state: Option<State>,
}

impl<T: TimeTrackingTechnique> TimeTrackingEngine<T> {
    /// The engine that has not switched yet.
    pub open spec fn spec_new(technique: T) -> Self {
        Self { mode: technique, state: None }
    }

    /// The target of the phase that one switch begins, and the engine after
    /// that switch.
    pub open spec fn spec_switch(self, time_spent: Duration) -> (Option<Duration>, Self) {
        let (state, mode) = self.mode.spec_switch(self.state, time_spent);
        (state.spec_duration(), Self { mode, state: Some(state) })
    }

    /// The engine after one switch for each entry of `elapsed`, in order.
    pub open spec fn run(self, elapsed: Seq<Duration>) -> Self
        decreases elapsed.len(),
    {
        if elapsed.len() == 0 {
            self
        } else {
            self.run(elapsed.drop_last()).spec_switch(elapsed.last()).1
        }
    }

    /// What the switches of [`Self::run`] report, in order: the phase that
    /// each one begins, and the target it hands back.
    pub open spec fn outputs(self, elapsed: Seq<Duration>) -> Seq<(State, Option<Duration>)> {
        Seq::new(
            elapsed.len(),
            |i: int|
                {
                    let switched = self.run(elapsed.take(i)).spec_switch(elapsed[i]);
                    (switched.1.state.unwrap(), switched.0)
                },
        )
    }

    /// Replaying the same reports of time spent on engines made from the
    /// same technique gives the same phases and targets in the same order,
    /// and leaves the same engine.
    pub proof fn lemma_replay_repeats(
        technique: T,
        elapsed: Seq<Duration>,
        same_technique: T,
        same_elapsed: Seq<Duration>,
    )
        requires
            technique == same_technique,
            elapsed == same_elapsed,
        ensures
            Self::spec_new(technique).outputs(elapsed) == Self::spec_new(same_technique).outputs(
                same_elapsed,
            ),
            Self::spec_new(technique).run(elapsed) == Self::spec_new(same_technique).run(
                same_elapsed,
            ),
    {
    }

    /// The phase is unknown only as long as no switch was made. Each switch
    /// reports the phase that the engine is in once it is made, and hands
    /// back the target that this phase carries.
    pub proof fn lemma_outputs_follow_run(self, elapsed: Seq<Duration>)
        ensures
            elapsed.len() == 0 ==> self.run(elapsed) == self,
            elapsed.len() > 0 ==> self.run(elapsed).state is Some,
            self.outputs(elapsed).len() == elapsed.len(),
            forall|i: int|
                0 <= i < elapsed.len() ==> {
                    &&& self.run(elapsed.take(i + 1)).state == Some(
                        (#[trigger] self.outputs(elapsed)[i]).0,
                    )
                    &&& self.outputs(elapsed)[i].1 == self.outputs(elapsed)[i].0.spec_duration()
                },
    {
        assert forall|i: int| 0 <= i < elapsed.len() implies self.run(elapsed.take(i + 1)).state
            == Some((#[trigger] self.outputs(elapsed)[i]).0) by {
            assert(elapsed.take(i + 1).drop_last() == elapsed.take(i));
        }
    }

    /// Creates an engine that has not switched yet.
    pub fn new(technique: T) -> (engine: Self)
        ensures
            engine == Self::spec_new(technique),
    {
        Self { mode: technique, state: None }
    }

    /// Ends the current phase, which took `time_spent`, and begins the next.
    ///
    /// Returns the target of the phase that begins, if the technique sets
    /// one, and the engine in that phase.
    pub fn switch(self, time_spent: Duration) -> (next: (Option<Duration>, Self))
        ensures
            next == self.spec_switch(time_spent),
            next.1.state is Some,
            next.0 == next.1.state.unwrap().spec_duration(),
    {
        let (new_state, new_mode) = self.mode.switch(self.state, time_spent);

        let duration = new_state.duration();

        (duration, Self { state: Some(new_state), mode: new_mode })
    }
}

} // verus!
