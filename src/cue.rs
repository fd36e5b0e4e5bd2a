use vstd::prelude::*;

verus! {

/// How long to wait for a cue whose length the decoder could not tell.
pub const FALLBACK_CUE_MS: u64 = 3000;

/// What the audio collaborator reported after being asked to play the cue.
#[derive(Clone, Copy, Debug, PartialEq, Eq, Structural)]
pub enum CueReport {
    /// Playback started; the decoder knew the cue's length, or not.
    Played { duration_ms: Option<u64> },
    /// The file was missing, could not be decoded, or no device played it.
    Failed,
}

/// What the session does about a cue before moving on.
#[derive(Clone, Copy, Debug, PartialEq, Eq, Structural)]
pub struct CueResponse {
    /// How long to block while the cue plays on the audio thread.
    pub wait_ms: u64,
    /// Whether to ring the terminal bell and print a diagnostic instead.
    pub bell: bool,
}

/// The response to a cue report: a played cue is waited out for its own
/// length, or for the fallback length when that is unknown; a failed one is
/// replaced by the bell and not waited for at all.
pub open spec fn cue_response_spec(report: CueReport) -> CueResponse {
    match report {
        CueReport::Played { duration_ms: Some(ms) } => CueResponse { wait_ms: ms, bell: false },
        CueReport::Played { duration_ms: None } => CueResponse { wait_ms: FALLBACK_CUE_MS, bell: false },
        CueReport::Failed => CueResponse { wait_ms: 0, bell: true },
    }
}

/// Turns a cue report into what the session does. A failure never stops the
/// session and never makes it wait longer than the fallback length.
pub fn cue_response(report: CueReport) -> (r: CueResponse)
    ensures
        r == cue_response_spec(report),
        report == CueReport::Failed ==> r.bell && r.wait_ms == 0,
        r.wait_ms <= FALLBACK_CUE_MS || report == (CueReport::Played { duration_ms: Some(r.wait_ms) }),
{
    match report {
        CueReport::Played { duration_ms: Some(ms) } => CueResponse { wait_ms: ms, bell: false },
        CueReport::Played { duration_ms: None } => CueResponse { wait_ms: FALLBACK_CUE_MS, bell: false },
        CueReport::Failed => CueResponse { wait_ms: 0, bell: true },
    }
}

} // verus!
