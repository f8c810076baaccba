use vstd::prelude::*;

use crate::phase::{tag_of, mark_of, CarefulResumePhase, CarefulResumeTrigger, CrState};
use crate::resume::ResumeView;

verus! {

/// The parameters remembered from an earlier connection, as reported.
#[derive(Clone, Copy, Debug, PartialEq, Eq, Structural)]
pub struct RestoredParameters {
    pub previous_cwnd: usize,
    /// Remembered minimum RTT in nanoseconds.
    pub previous_rtt: u64,
}

/// A phase change, as reported to telemetry.
#[derive(Clone, Copy, Debug, PartialEq, Eq, Structural)]
pub struct PhaseUpdate {
    /// The phase reported before, if any was.
    pub old_phase: Option<CarefulResumePhase>,
    pub new_phase: CarefulResumePhase,
    pub pipesize: usize,
    /// The packet number that the new phase carries, or zero.
    pub cr_mark: u64,
    pub cwnd: usize,
    pub ssthresh: usize,
    /// The remembered parameters, when either is non-zero.
    pub restored: Option<RestoredParameters>,
    pub trigger: Option<CarefulResumeTrigger>,
}

pub open spec fn tag_of_opt(state: Option<CrState>) -> Option<CarefulResumePhase> {
    match state {
        Some(s) => Some(tag_of(s)),
        None => None,
    }
}

pub open spec fn restored_of(v: ResumeView) -> Option<RestoredParameters> {
    if v.previous_rtt != 0 || v.previous_cwnd != 0 {
        Some(
            RestoredParameters {
                previous_cwnd: v.previous_cwnd as usize,
                previous_rtt: v.previous_rtt as u64,
            },
        )
    } else {
        None
    }
}

/// The report due for state `v`: one when its phase differs from the phase
/// reported last.
pub open spec fn phase_update(v: ResumeView, cwnd: usize, ssthresh: usize) -> Option<PhaseUpdate> {
    if v.reported == Some(v.phase) {
        None
    } else {
        Some(
            PhaseUpdate {
                old_phase: tag_of_opt(v.reported),
                new_phase: tag_of(v.phase),
                pipesize: v.pipesize as usize,
                cr_mark: mark_of(v.phase),
                cwnd,
                ssthresh,
                restored: restored_of(v),
                trigger: v.last_trigger,
            },
        )
    }
}

} // verus!
