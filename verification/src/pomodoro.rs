//! The fixed-cycle technique: focus phases of one fixed length, a short break
//! after each, and a long break once enough short ones have been taken.

use vstd::prelude::*;

use crate::duration::Duration;
use crate::time_management_technique::TimeManagementTechnique;
use crate::time_tracking_technique::TimeTrackingTechnique;
use crate::State;
use crate::TimeManagementEngine;
use crate::TimeTrackingEngine;

verus! {

/// The fixed-cycle technique, with the number of short breaks taken since
/// the last long one.
///
/// That number never exceeds `short_breaks_before_long`: the type holds no
/// value for which it does.
#[derive(Debug, PartialEq, Eq, PartialOrd)]
pub struct Pomodoro {
    focus_duration: Duration,
    break_count: usize,
    short_breaks_before_long: usize,
    short_break_duration: Duration,
    long_break_duration: Duration,
}

/// What a [`Pomodoro`] holds, as plain values.
pub struct PomodoroView {
    /// The target of every focus phase.
    pub focus_duration: Duration,
    /// The short breaks taken since the last long break.
    pub break_count: nat,
    /// The short breaks that come between two long ones.
    pub short_breaks_before_long: nat,
    /// The target of a short break.
    pub short_break_duration: Duration,
    /// The target of a long break.
    pub long_break_duration: Duration,
}

impl PomodoroView {
    /// The count of short breaks is within its limit.
    pub open spec fn wf(self) -> bool {
        self.break_count <= self.short_breaks_before_long
    }

    /// The settings of the classic preset: 25 minutes of focus, breaks of 5
    /// minutes, and a break of 15 minutes after three short ones.
    pub open spec fn classic() -> PomodoroView {
        PomodoroView {
            focus_duration: Duration::spec_from_secs(1500),
            break_count: 0,
            short_breaks_before_long: 3,
            short_break_duration: Duration::spec_from_secs(300),
            long_break_duration: Duration::spec_from_secs(900),
        }
    }

    /// The transition rule: the phase that follows `state`, and the
    /// technique as it stands once that phase has begun.
    ///
    /// A focus phase follows a break and opens a session. A break follows a
    /// focus phase: the long one if the limit of short breaks is reached,
    /// which starts the count again, else a short one, which is counted.
    pub open spec fn next(self, state: Option<State>) -> (State, PomodoroView) {
        match state {
            Some(State::Focus(_)) => {
                if self.break_count == self.short_breaks_before_long {
                    (
                        State::Break(Some(self.long_break_duration)),
                        PomodoroView { break_count: 0, ..self },
                    )
                } else {
                    (
                        State::Break(Some(self.short_break_duration)),
                        PomodoroView { break_count: self.break_count + 1, ..self },
                    )
                }
            },
            _ => (State::Focus(Some(self.focus_duration)), self),
        }
    }
}

impl View for Pomodoro {
    type V = PomodoroView;

    closed spec fn view(&self) -> PomodoroView {
        PomodoroView {
            focus_duration: self.focus_duration,
            break_count: self.break_count as nat,
            short_breaks_before_long: self.short_breaks_before_long as nat,
            short_break_duration: self.short_break_duration,
            long_break_duration: self.long_break_duration,
        }
    }
}

impl Pomodoro {
    /// What every value of the type satisfies.
    #[verifier::type_invariant]
    pub open spec fn inv(self) -> bool {
        self@.wf()
    }

    /// The technique that holds `model`.
    pub closed spec fn spec_from_view(model: PomodoroView) -> Pomodoro {
        Pomodoro {
            focus_duration: model.focus_duration,
            break_count: model.break_count as usize,
            short_breaks_before_long: model.short_breaks_before_long as usize,
            short_break_duration: model.short_break_duration,
            long_break_duration: model.long_break_duration,
        }
    }

    /// The phase that follows `state`, and the technique once that phase has
    /// begun: what [`PomodoroView::next`] says of the values held.
    pub open spec fn next(self, state: Option<State>) -> (State, Pomodoro) {
        (self@.next(state).0, Self::spec_from_view(self@.next(state).1))
    }

    /// Makes the technique with the given settings, no short break taken.
    ///
    /// Every setting is accepted. With `short_breaks_before_long` at zero
    /// every break is a long one.
    pub fn new(
        focus_duration: Duration,
        short_breaks_before_long: usize,
        short_break_duration: Duration,
        long_break_duration: Duration,
    ) -> (technique: Self)
        ensures
            technique@ == (PomodoroView {
                focus_duration,
                break_count: 0,
                short_breaks_before_long: short_breaks_before_long as nat,
                short_break_duration,
                long_break_duration,
            }),
    {
        Self {
            focus_duration,
            break_count: 0,
            short_breaks_before_long,
            short_break_duration,
            long_break_duration,
        }
    }

    /// Makes the classic preset: 25 minutes of focus, breaks of 5 minutes,
    /// a break of 15 minutes after three short ones, no short break taken.
    pub fn classic_pomodoro() -> (technique: Self)
        ensures
            technique@ == PomodoroView::classic(),
    {
        Self {
            focus_duration: Duration::from_secs(25 * 60),
            short_break_duration: Duration::from_secs(5 * 60),
            long_break_duration: Duration::from_secs(15 * 60),
            break_count: 0,
            short_breaks_before_long: 3,
        }
    }
}

impl TimeTrackingTechnique for Pomodoro {
    open spec fn spec_switch(self, state: Option<State>, time_spent: Duration) -> (State, Self) {
        self.next(state)
    }

    /// Begins the phase that follows `state`. The time spent plays no part.
    fn switch(self, state: Option<State>, _time_spent: Duration) -> (next: (State, Self))
        ensures
            next.0 == self@.next(state).0,
            next.1@ == self@.next(state).1,
            next.1@.wf(),
    {
        proof {
            use_type_invariant(&self);
        }
        match state {
            Some(State::Focus(_)) => {
                if self.short_breaks_before_long == self.break_count {
                    (State::Break(Some(self.long_break_duration)), Self { break_count: 0, ..self })
                } else {
                    (
                        State::Break(Some(self.short_break_duration)),
                        Self { break_count: self.break_count + 1, ..self },
                    )
                }
            },
            Some(State::Break(_)) | None => (State::Focus(Some(self.focus_duration)), self),
        }
    }
}

impl TimeManagementTechnique for Pomodoro {
    open spec fn spec_switch(self, state: Option<State>, time_spent: Duration) -> (State, Self) {
        self.next(state)
    }

    /// Begins the phase that follows `state`. The time spent plays no part.
    fn switch(&mut self, state: &Option<State>, _time_spent: Duration) -> (next: State)
        ensures
            next == old(self)@.next(*state).0,
            final(self)@ == old(self)@.next(*state).1,
            final(self)@.wf(),
    {
        proof {
            use_type_invariant(&*self);
        }
        match state {
            Some(State::Focus(_)) => {
                if self.short_breaks_before_long == self.break_count {
                    self.break_count = 0;
                    State::Break(Some(self.long_break_duration))
                } else {
                    self.break_count += 1;
                    State::Break(Some(self.short_break_duration))
                }
            },
            Some(State::Break(_)) | None => State::Focus(Some(self.focus_duration)),
        }
    }
}

impl PomodoroView {
    /// The technique after one transition out of each of `states`, in order.
    pub open spec fn after(self, states: Seq<Option<State>>) -> PomodoroView
        decreases states.len(),
    {
        if states.len() == 0 {
            self
        } else {
            self.after(states.drop_last()).next(states.last()).1
        }
    }

    /// The phases that `count` transitions in a row are made out of, where
    /// each of them ends a focus phase.
    pub open spec fn focus_ends(count: nat) -> Seq<Option<State>> {
        Seq::new(count, |i: int| Some(State::Focus(None)))
    }

    /// What holds of a session on this technique once `switches` switches
    /// were made, of the technique as it stands `now` and of the phase
    /// `state` that the session is in.
    ///
    /// The settings are the same and the count of short breaks is within
    /// its limit. Focus phases and breaks take turns, focus first. Each
    /// focus phase has the set target. Each break has the target of the
    /// long break if it started the count again, and else of a short one.
    pub open spec fn in_session(self, switches: nat, now: PomodoroView, state: Option<State>) -> bool {
        &&& now.wf()
        &&& now == PomodoroView { break_count: now.break_count, ..self }
        &&& switches == 0 ==> state is None
        &&& switches % 2 == 1 ==> state == Some(State::Focus(Some(self.focus_duration)))
        &&& switches > 0 && switches % 2 == 0 ==> state == Some(
            State::Break(
                Some(
                    if now.break_count == 0 {
                        self.long_break_duration
                    } else {
                        self.short_break_duration
                    },
                ),
            ),
        )
    }

    /// A transition changes nothing but the count of short breaks, and
    /// leaves that count within its limit.
    pub proof fn lemma_next_keeps_settings(self, state: Option<State>)
        requires
            self.wf(),
        ensures
            self.next(state).1.wf(),
            self.next(state).1 == (PomodoroView {
                break_count: self.next(state).1.break_count,
                ..self
            }),
    {
    }

    /// A break follows every focus phase, and a focus phase follows
    /// everything else, which leaves the technique as it is; each phase
    /// comes with a target.
    pub proof fn lemma_break_follows_focus(self, state: Option<State>)
        ensures
            state matches Some(State::Focus(_)) ==> self.next(state).0 is Break,
            !(state matches Some(State::Focus(_))) ==> self.next(state) == (
                State::Focus(Some(self.focus_duration)),
                self,
            ),
            self.next(state).0.spec_duration() is Some,
    {
    }

    /// From no short break taken, each of the next
    /// `short_breaks_before_long` focus phases is followed by a short
    /// break, and the one after them by the long break, which leaves the
    /// technique as it was at first.
    pub proof fn lemma_long_break_closes_the_cycle(self, taken: nat)
        requires
            self.break_count == 0,
            taken <= self.short_breaks_before_long,
        ensures
            self.after(Self::focus_ends(taken)) == (PomodoroView { break_count: taken, ..self }),
            taken < self.short_breaks_before_long ==> self.after(Self::focus_ends(taken)).next(
                Some(State::Focus(None)),
            ).0 == State::Break(Some(self.short_break_duration)),
            taken == self.short_breaks_before_long ==> self.after(Self::focus_ends(taken)).next(
                Some(State::Focus(None)),
            ) == (State::Break(Some(self.long_break_duration)), self),
        decreases taken,
    {
        if taken > 0 {
            let before = (taken - 1) as nat;
            self.lemma_long_break_closes_the_cycle(before);
            assert(Self::focus_ends(taken).drop_last() == Self::focus_ends(before));
        }
    }

    /// Whatever transitions are made, in whatever order, the settings stay
    /// as they were and the count of short breaks never exceeds
    /// `short_breaks_before_long`.
    pub proof fn lemma_break_count_bounded(self, states: Seq<Option<State>>)
        requires
            self.wf(),
        ensures
            self.after(states).wf(),
            self.after(states).break_count <= self.short_breaks_before_long,
            self.after(states) == (PomodoroView {
                break_count: self.after(states).break_count,
                ..self
            }),
        decreases states.len(),
    {
        if states.len() > 0 {
            self.lemma_break_count_bounded(states.drop_last());
            self.after(states.drop_last()).lemma_next_keeps_settings(states.last());
        }
    }
}

impl Pomodoro {
    /// Two techniques that hold the same are the same technique.
    pub proof fn lemma_view_determines(self, other: Pomodoro)
        requires
            self@ == other@,
        ensures
            self == other,
    {
    }

    /// The technique made from a model holds that model, where the model's
    /// counts are ones that a `usize` can hold.
    pub proof fn lemma_view_of_from_view(model: PomodoroView)
        requires
            model.break_count <= usize::MAX,
            model.short_breaks_before_long <= usize::MAX,
        ensures
            Self::spec_from_view(model)@ == model,
    {
    }

    /// The technique that a transition leaves holds what the rule says, and
    /// is a value of the type again.
    pub proof fn lemma_next_view(self, state: Option<State>)
        requires
            self.inv(),
        ensures
            self.next(state).1@ == self@.next(state).1,
            self.next(state).1.inv(),
    {
    }

    /// Advanced in place or by value, the technique decides the same, and
    /// the time spent plays no part in what it decides.
    pub proof fn lemma_decides_alike(self, state: Option<State>, time_spent: Duration)
        ensures
            TimeManagementTechnique::spec_switch(self, state, time_spent) == self.next(state),
            TimeTrackingTechnique::spec_switch(self, state, time_spent) == self.next(state),
    {
    }

    /// However many switches an engine of either kind makes on a technique,
    /// and whatever time is spent in the phases, the count of short breaks
    /// never exceeds its limit, a break follows every focus phase, and a
    /// focus phase follows every break.
    pub proof fn lemma_session(technique: Pomodoro, elapsed: Seq<Duration>)
        requires
            technique.inv(),
        ensures
            ({
                let engine = TimeManagementEngine::spec_new(technique).run(elapsed);
                technique@.in_session(elapsed.len(), engine.mode@, engine.state)
            }),
            ({
                let engine = TimeTrackingEngine::spec_new(technique).run(elapsed);
                technique@.in_session(elapsed.len(), engine.mode@, engine.state)
            }),
        decreases elapsed.len(),
    {
        if elapsed.len() > 0 {
            Self::lemma_session(technique, elapsed.drop_last());
            let in_place = TimeManagementEngine::spec_new(technique).run(elapsed.drop_last());
            in_place.mode.lemma_next_view(in_place.state);
            let by_value = TimeTrackingEngine::spec_new(technique).run(elapsed.drop_last());
            by_value.mode.lemma_next_view(by_value.state);
        }
    }
}

} // verus!
