//! A work/rest interval timer: the decisions of a cancellable countdown, the
//! rendering of its remaining time, the handling of transition cues, and the
//! session controller that alternates work and rest phases.
use vstd::prelude::*;

pub mod countdown;
pub mod cue;
pub mod render;
pub mod session;

verus! {

} // verus!
