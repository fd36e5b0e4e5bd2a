use pomodoro::countdown::{countdown_tick, CountdownOutcome, Tick};
use pomodoro::cue::{cue_response, CueReport, CueResponse, FALLBACK_CUE_MS};
use pomodoro::session::{
    Config, Phase, Session, SessionAction, SessionEvent, SessionState, DEFAULT_REST_MINUTES,
    DEFAULT_WORK_MINUTES,
};

/// Feeds the session a fixed list of countdown outcomes, with the flag
/// reading "continue" after each cue. Returns the cues played, in order,
/// and whether the session stopped.
fn drive(outcomes: &[CountdownOutcome]) -> (Vec<Phase>, bool) {
    let mut session = Session::new(Config { work_secs: 60, rest_secs: 60 });
    let mut cues = Vec::new();
    let mut action = session.next(SessionEvent::Begin { running: true });
    let mut next_outcome = outcomes.iter();
    loop {
        match action {
            SessionAction::StartCountdown(_, _) => match next_outcome.next() {
                Some(o) => action = session.next(SessionEvent::CountdownEnded(*o)),
                None => return (cues, session.is_halted()),
            },
            SessionAction::PlayCue(p) => {
                cues.push(p);
                action = session.next(SessionEvent::CueEnded { running: true });
            }
            SessionAction::Stop => return (cues, session.is_halted()),
        }
    }
}

#[test]
fn cue_after_each_completed_countdown_then_halt() {
    let c = CountdownOutcome::CompletedNormally;
    let i = CountdownOutcome::InterruptedEarly;
    let (cues, halted) = drive(&[c, c, i]);
    assert_eq!(cues, vec![Phase::Work, Phase::Rest]);
    assert!(halted);
    let (cues, halted) = drive(&[c, c, c, i]);
    assert_eq!(cues, vec![Phase::Work, Phase::Rest, Phase::Work]);
    assert!(halted);
}

#[test]
fn interrupted_first_countdown_plays_no_cue() {
    let (cues, halted) = drive(&[CountdownOutcome::InterruptedEarly]);
    assert!(cues.is_empty());
    assert!(halted);
}

#[test]
fn phases_alternate_with_configured_lengths() {
    let mut s = Session::new(Config { work_secs: 1500, rest_secs: 300 });
    assert_eq!(s.state, SessionState::Ready);
    assert_eq!(
        s.next(SessionEvent::Begin { running: true }),
        SessionAction::StartCountdown(Phase::Work, 1500)
    );
    assert_eq!(
        s.next(SessionEvent::CountdownEnded(CountdownOutcome::CompletedNormally)),
        SessionAction::PlayCue(Phase::Work)
    );
    assert_eq!(
        s.next(SessionEvent::CueEnded { running: true }),
        SessionAction::StartCountdown(Phase::Rest, 300)
    );
    assert_eq!(
        s.next(SessionEvent::CountdownEnded(CountdownOutcome::CompletedNormally)),
        SessionAction::PlayCue(Phase::Rest)
    );
    assert_eq!(
        s.next(SessionEvent::CueEnded { running: true }),
        SessionAction::StartCountdown(Phase::Work, 1500)
    );
    assert_eq!(s.state, SessionState::Counting(Phase::Work));
}

#[test]
fn stop_during_cue_starts_no_phase() {
    let mut s = Session::new(Config::default());
    s.next(SessionEvent::Begin { running: true });
    s.next(SessionEvent::CountdownEnded(CountdownOutcome::CompletedNormally));
    assert_eq!(s.next(SessionEvent::CueEnded { running: false }), SessionAction::Stop);
    assert!(s.is_halted());
    assert_eq!(s.next(SessionEvent::Begin { running: true }), SessionAction::Stop);
}

#[test]
fn stopped_before_start_runs_nothing() {
    let mut s = Session::new(Config::default());
    assert_eq!(s.next(SessionEvent::Begin { running: false }), SessionAction::Stop);
    assert!(s.is_halted());
}

#[test]
fn unexpected_event_halts() {
    let mut s = Session::new(Config::default());
    assert_eq!(
        s.next(SessionEvent::CountdownEnded(CountdownOutcome::CompletedNormally)),
        SessionAction::Stop
    );
    assert_eq!(s.state, SessionState::Halted);
}

#[test]
fn cue_failure_is_not_fatal_and_not_delayed() {
    assert_eq!(cue_response(CueReport::Failed), CueResponse { wait_ms: 0, bell: true });
    assert_eq!(
        cue_response(CueReport::Played { duration_ms: None }),
        CueResponse { wait_ms: FALLBACK_CUE_MS, bell: false }
    );
    assert_eq!(FALLBACK_CUE_MS, 3000);
    assert_eq!(
        cue_response(CueReport::Played { duration_ms: Some(4250) }),
        CueResponse { wait_ms: 4250, bell: false }
    );
    let mut s = Session::new(Config { work_secs: 60, rest_secs: 60 });
    s.next(SessionEvent::Begin { running: true });
    assert_eq!(
        s.next(SessionEvent::CountdownEnded(CountdownOutcome::CompletedNormally)),
        SessionAction::PlayCue(Phase::Work)
    );
    // the cue failed: the session moves on all the same
    assert_eq!(
        s.next(SessionEvent::CueEnded { running: true }),
        SessionAction::StartCountdown(Phase::Rest, 60)
    );
}

#[test]
fn config_from_minutes() {
    assert_eq!(
        Config::from_minutes(25, 5),
        Some(Config { work_secs: 1500, rest_secs: 300 })
    );
    assert_eq!(Config::from_minutes(0, 1), Some(Config { work_secs: 0, rest_secs: 60 }));
    assert_eq!(Config::from_minutes(u64::MAX, 5), None);
    assert_eq!(Config::from_minutes(5, u64::MAX / 60 + 1), None);
    assert_eq!(
        Config::from_minutes(u64::MAX / 60, 0),
        Some(Config { work_secs: u64::MAX / 60 * 60, rest_secs: 0 })
    );
    assert_eq!(
        Config::default(),
        Config { work_secs: DEFAULT_WORK_MINUTES * 60, rest_secs: DEFAULT_REST_MINUTES * 60 }
    );
    assert_eq!(Config::default(), Config { work_secs: 1500, rest_secs: 300 });
}

#[test]
fn end_to_end_cancel_during_rest() {
    // work 1 minute, rest 1 minute, cancelled 70 s after the start;
    // cues fail here, so they take no time
    let config = Config::from_minutes(1, 1).unwrap();
    let cancel_at_ms: u64 = 70_000;
    let mut clock_ms: u64 = 0;
    let running = |now: u64| now < cancel_at_ms;
    let mut session = Session::new(config);
    let mut cues = Vec::new();
    let mut outcomes = Vec::new();
    let mut action = session.next(SessionEvent::Begin { running: running(clock_ms) });
    loop {
        match action {
            SessionAction::StartCountdown(phase, secs) => {
                let start = clock_ms;
                let outcome = loop {
                    match countdown_tick(secs, clock_ms - start, running(clock_ms)) {
                        Tick::Render(_) => clock_ms += 1000,
                        Tick::Finished(o) => break o,
                    }
                };
                outcomes.push((phase, outcome));
                action = session.next(SessionEvent::CountdownEnded(outcome));
            }
            SessionAction::PlayCue(phase) => {
                cues.push(phase);
                clock_ms += cue_response(CueReport::Failed).wait_ms;
                action = session.next(SessionEvent::CueEnded { running: running(clock_ms) });
            }
            SessionAction::Stop => break,
        }
    }
    assert_eq!(cues, vec![Phase::Work]);
    assert_eq!(
        outcomes,
        vec![
            (Phase::Work, CountdownOutcome::CompletedNormally),
            (Phase::Rest, CountdownOutcome::InterruptedEarly)
        ]
    );
    assert!(session.is_halted());
    assert!(clock_ms >= cancel_at_ms && clock_ms < cancel_at_ms + 1000);
}
