use color_eyre::eyre::{Report, Result};

use vault_tasks_time_management::duration::Duration;
use vault_tasks_time_management::{flow_time::FlowTime, pomodoro::Pomodoro, State, TimeManagementEngine};

#[test]
fn test_run_pomodoro() {
    let time_tracker = TimeManagementEngine::new(Pomodoro::classic_pomodoro());
    let focus_time = Duration::from_secs(60 * 25);
    let short_break_time = Duration::from_secs(60 * 5);
    assert_eq!(time_tracker.mode, Pomodoro::classic_pomodoro());
    assert!(time_tracker.state.is_none());

    let (to_spend_opt, time_tracker) = time_tracker.switch(Duration::default());
    assert!(time_tracker.state.is_some());
    assert_eq!(
        time_tracker.state.clone().unwrap(),
        State::Focus(Some(focus_time))
    );
    assert!(to_spend_opt.is_some());
    assert_eq!(focus_time, to_spend_opt.unwrap());

    let (to_spend_opt, time_tracker) = time_tracker.switch(Duration::default());
    assert!(time_tracker.state.is_some());
    assert_eq!(
        time_tracker.state.clone().unwrap(),
        State::Break(Some(short_break_time))
    );
    assert!(to_spend_opt.is_some());
    assert_eq!(short_break_time, to_spend_opt.unwrap());
}

#[test]
fn test_full_run_pomodoro() {
    let mut time_tracker = TimeManagementEngine::new(Pomodoro::classic_pomodoro());
    assert_eq!(time_tracker.mode, Pomodoro::classic_pomodoro());
    assert!(time_tracker.state.is_none());

    let mut to_spend_opt = None;

    for _i in 0..2 {
        // (Focus -> Break) 3 times
        for _j in 0..(3 * 2) {
            let (to_spend_opt2, time_tracker2) = time_tracker.switch(Duration::from_secs(0));
            time_tracker = time_tracker2;
            to_spend_opt = to_spend_opt2;
        }

        assert!(time_tracker.state.is_some());
        assert_eq!(
            time_tracker.state.clone().unwrap(),
            State::Break(to_spend_opt)
        );
    }
}

#[test]
fn test_run_flowtime() -> Result<()> {
    let break_factor = 5;
    let time_tracker = TimeManagementEngine::new(
        FlowTime::new(break_factor).map_err(|e| Report::msg(e.message()))?,
    );

    assert!(time_tracker.state.is_none());

    let focus_time = Duration::from_secs(25);
    let break_time = focus_time / break_factor;

    let (to_spend_opt, time_tracker) = time_tracker.switch(Duration::from_secs(0));

    assert!(time_tracker.state.is_some());
    assert_eq!(time_tracker.state.clone().unwrap(), State::Focus(None));
    assert!(to_spend_opt.is_none());

    let (to_spend_opt, time_tracker) = time_tracker.switch(focus_time);
    assert!(time_tracker.state.is_some());
    assert_eq!(
        time_tracker.state.clone().unwrap(),
        State::Break(Some(break_time))
    );
    assert!(to_spend_opt.is_some());
    assert_eq!(break_time, to_spend_opt.unwrap());
    Ok(())
}

#[test]
fn fresh_engine_is_in_no_phase() {
    let engine = TimeManagementEngine::new(Pomodoro::classic_pomodoro());
    assert_eq!(engine.state, None);
    assert_eq!(engine.mode, Pomodoro::classic_pomodoro());
}

#[test]
fn target_handed_back_is_the_one_the_phase_carries() {
    let mut engine = TimeManagementEngine::new(Pomodoro::classic_pomodoro());
    for _ in 0..20 {
        let (target, next) = engine.switch(Duration::from_secs(7));
        engine = next;
        assert_eq!(engine.state.unwrap().duration(), target);
    }

    let mut engine = TimeManagementEngine::new(FlowTime::new(3).unwrap());
    for _ in 0..20 {
        let (target, next) = engine.switch(Duration::from_secs(7));
        engine = next;
        assert_eq!(engine.state.unwrap().duration(), target);
    }
}

fn replay_pomodoro(elapsed: &[u64]) -> Vec<(Option<State>, Option<Duration>)> {
    let mut engine = TimeManagementEngine::new(Pomodoro::classic_pomodoro());
    let mut outputs = Vec::new();
    for secs in elapsed {
        let (target, next) = engine.switch(Duration::from_secs(*secs));
        engine = next;
        outputs.push((engine.state, target));
    }
    outputs
}

fn replay_flow_time(elapsed: &[u64]) -> Vec<(Option<State>, Option<Duration>)> {
    let mut engine = TimeManagementEngine::new(FlowTime::new(4).unwrap());
    let mut outputs = Vec::new();
    for secs in elapsed {
        let (target, next) = engine.switch(Duration::from_secs(*secs));
        engine = next;
        outputs.push((engine.state, target));
    }
    outputs
}

#[test]
fn replaying_the_same_reports_gives_the_same_outputs() {
    let elapsed = [0, 1_500, 290, 1_499, 301, 1_700, 300, 1_500, 900, 12, 13];
    assert_eq!(replay_pomodoro(&elapsed), replay_pomodoro(&elapsed));
    assert_eq!(replay_flow_time(&elapsed), replay_flow_time(&elapsed));

    let outputs = replay_flow_time(&elapsed);
    assert_eq!(outputs.len(), elapsed.len());
    assert_eq!(outputs[0], (Some(State::Focus(None)), None));
    assert_eq!(
        outputs[1],
        (
            Some(State::Break(Some(Duration::from_secs(375)))),
            Some(Duration::from_secs(375))
        )
    );
    assert_eq!(outputs[2], (Some(State::Focus(None)), None));
    assert_eq!(
        outputs[3],
        (
            Some(State::Break(Some(Duration { nanos: 374_750_000_000 }))),
            Some(Duration { nanos: 374_750_000_000 })
        )
    );
}
