use vstd::prelude::*;
use crate::countdown::CountdownOutcome;

verus! {

/// Default length of a work phase, in minutes.
pub const DEFAULT_WORK_MINUTES: u64 = 25;

/// Default length of a rest phase, in minutes.
pub const DEFAULT_REST_MINUTES: u64 = 5;

/// The two phases that a session alternates.
#[derive(Clone, Copy, Debug, PartialEq, Eq, Structural)]
pub enum Phase {
    Work,
    Rest,
}

/// The lengths of the two phases, in seconds.
#[derive(Clone, Copy, Debug, PartialEq, Eq, Structural)]
pub struct Config {
    pub work_secs: u64,
    pub rest_secs: u64,
}

impl Config {
    /// A configuration from phase lengths in minutes; `None` when a length
    /// in seconds does not fit in a `u64`.
    pub fn from_minutes(work_minutes: u64, rest_minutes: u64) -> (r: Option<Config>)
        ensures
            r is Some <==> work_minutes * 60 <= u64::MAX && rest_minutes * 60 <= u64::MAX,
            r matches Some(c) ==> c.work_secs == work_minutes * 60 && c.rest_secs == rest_minutes
                * 60,
    {
        match (work_minutes.checked_mul(60), rest_minutes.checked_mul(60)) {
            (Some(work_secs), Some(rest_secs)) => Some(Config { work_secs, rest_secs }),
            _ => None,
        }
    }

    /// The length of `phase` under this configuration, in seconds.
    pub open spec fn secs_of(self, phase: Phase) -> u64 {
        match phase {
            Phase::Work => self.work_secs,
            Phase::Rest => self.rest_secs,
        }
    }
}

impl Default for Config {
    /// Twenty-five minutes of work and five of rest.
    fn default() -> (r: Config)
        ensures
            r.work_secs == DEFAULT_WORK_MINUTES * 60,
            r.rest_secs == DEFAULT_REST_MINUTES * 60,
    {
        Config { work_secs: DEFAULT_WORK_MINUTES * 60, rest_secs: DEFAULT_REST_MINUTES * 60 }
    }
}

/// Where a session stands between two steps.
#[derive(Clone, Copy, Debug, PartialEq, Eq, Structural)]
pub enum SessionState {
    /// Not started: waiting for the first look at the cancellation flag.
    Ready,
    /// A countdown of this phase is running.
    Counting(Phase),
    /// The cue that ends this phase is playing.
    Cueing(Phase),
    /// Stopped for good.
    Halted,
}

/// What the caller reports back to the session after acting.
#[derive(Clone, Copy, Debug, PartialEq, Eq, Structural)]
pub enum SessionEvent {
    /// The session is asked to start; `running` is the cancellation flag.
    Begin { running: bool },
    /// The countdown that was started has ended so.
    CountdownEnded(CountdownOutcome),
    /// The cue has played, or failed; `running` is the cancellation flag.
    CueEnded { running: bool },
}

/// What the session asks the caller to do next.
#[derive(Clone, Copy, Debug, PartialEq, Eq, Structural)]
pub enum SessionAction {
    /// Announce and run a countdown of this phase, of this many seconds.
    StartCountdown(Phase, u64),
    /// Play the cue that ends this phase.
    PlayCue(Phase),
    /// Stop: no further cue and no further phase.
    Stop,
}

/// The phase that follows `phase`.
pub open spec fn other(phase: Phase) -> Phase {
    match phase {
        Phase::Work => Phase::Rest,
        Phase::Rest => Phase::Work,
    }
}

/// The session's transition: the state after `event` in `state`, and the
/// action that goes with it. A session starts with work when the flag says
/// to continue; a countdown that completes is followed by its cue, one that
/// is interrupted stops the session; after a cue the other phase starts,
/// unless the flag says to stop. Any other event stops the session.
pub open spec fn step(config: Config, state: SessionState, event: SessionEvent) -> (
    SessionState,
    SessionAction,
) {
    let start = |p: Phase|
        (SessionState::Counting(p), SessionAction::StartCountdown(p, config.secs_of(p)));
    let halt = (SessionState::Halted, SessionAction::Stop);
    match (state, event) {
        (SessionState::Ready, SessionEvent::Begin { running }) => {
            if running {
                start(Phase::Work)
            } else {
                halt
            }
        },
        (SessionState::Counting(p), SessionEvent::CountdownEnded(outcome)) => {
            match outcome {
                CountdownOutcome::CompletedNormally => (
                    SessionState::Cueing(p),
                    SessionAction::PlayCue(p),
                ),
                CountdownOutcome::InterruptedEarly => halt,
            }
        },
        (SessionState::Cueing(p), SessionEvent::CueEnded { running }) => {
            if running {
                start(other(p))
            } else {
                halt
            }
        },
        _ => halt,
    }
}

/// The session controller: it alternates work and rest countdowns with a
/// cue after each one that completes, until a countdown is interrupted or
/// the flag says to stop.
pub struct Session {
    pub config: Config,
    pub state: SessionState,
}

impl Session {
    /// A session that has not started yet.
    pub fn new(config: Config) -> (r: Session)
        ensures
            r.config == config,
            r.state == SessionState::Ready,
    {
        Session { config, state: SessionState::Ready }
    }

    /// Whether the session has stopped for good.
    pub fn is_halted(&self) -> (r: bool)
        ensures
            r == (self.state == SessionState::Halted),
    {
        match self.state {
            SessionState::Halted => true,
            _ => false,
        }
    }

    /// Takes the caller's report and returns what to do next.
    pub fn next(&mut self, event: SessionEvent) -> (a: SessionAction)
        ensures
            final(self).config == old(self).config,
            (final(self).state, a) == step(old(self).config, old(self).state, event),
    {
        let (state, action) = match (self.state, event) {
            (SessionState::Ready, SessionEvent::Begin { running }) => {
                if running {
                    (
                        SessionState::Counting(Phase::Work),
                        SessionAction::StartCountdown(Phase::Work, self.config.work_secs),
                    )
                } else {
                    (SessionState::Halted, SessionAction::Stop)
                }
            },
            (SessionState::Counting(p), SessionEvent::CountdownEnded(outcome)) => {
                match outcome {
                    CountdownOutcome::CompletedNormally => (
                        SessionState::Cueing(p),
                        SessionAction::PlayCue(p),
                    ),
                    CountdownOutcome::InterruptedEarly => (SessionState::Halted, SessionAction::Stop),
                }
            },
            (SessionState::Cueing(p), SessionEvent::CueEnded { running }) => {
                if running {
                    match p {
                        Phase::Work => (
                            SessionState::Counting(Phase::Rest),
                            SessionAction::StartCountdown(Phase::Rest, self.config.rest_secs),
                        ),
                        Phase::Rest => (
                            SessionState::Counting(Phase::Work),
                            SessionAction::StartCountdown(Phase::Work, self.config.work_secs),
                        ),
                    }
                } else {
                    (SessionState::Halted, SessionAction::Stop)
                }
            },
            _ => (SessionState::Halted, SessionAction::Stop),
        };
        self.state = state;
        action
    }
}

/// An interrupted countdown stops the session without a cue, and a stopped
/// session stays stopped whatever it is told.
pub proof fn lemma_interrupt_halts_session(config: Config, phase: Phase, event: SessionEvent)
    ensures
        step(config, SessionState::Counting(phase), SessionEvent::CountdownEnded(
            CountdownOutcome::InterruptedEarly,
        )) == (SessionState::Halted, SessionAction::Stop),
        step(config, SessionState::Halted, event) == (SessionState::Halted, SessionAction::Stop),
{
}

/// A cue is played only right after a countdown of the same phase has
/// completed normally.
pub proof fn lemma_cue_follows_completed_countdown(
    config: Config,
    state: SessionState,
    event: SessionEvent,
    phase: Phase,
)
    ensures
        step(config, state, event).1 == SessionAction::PlayCue(phase) ==> state
            == SessionState::Counting(phase) && event == SessionEvent::CountdownEnded(
            CountdownOutcome::CompletedNormally,
        ),
        state == SessionState::Counting(phase) && event == SessionEvent::CountdownEnded(
            CountdownOutcome::CompletedNormally,
        ) ==> step(config, state, event).1 == SessionAction::PlayCue(phase),
{
}

/// After the cue of one phase, while the flag says to continue, the other
/// phase starts with its configured length: work and rest alternate.
pub proof fn lemma_phases_alternate(config: Config, phase: Phase)
    ensures
        step(config, SessionState::Cueing(phase), SessionEvent::CueEnded { running: true }) == (
            SessionState::Counting(other(phase)),
            SessionAction::StartCountdown(other(phase), config.secs_of(other(phase))),
        ),
        other(phase) != phase,
{
}

} // verus!
