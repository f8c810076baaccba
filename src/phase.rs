use vstd::prelude::*;

verus! {

/// Phase of the careful-resume controller.
///
/// Three phases carry a packet number: the first packet sent after the jump
/// (`Unvalidated`), the last packet sent before validation started
/// (`Validating`), and the packet whose acknowledgment ends the retreat
/// (`SafeRetreat`).
#[derive(Clone, Copy, Debug, PartialEq, Eq, Structural)]
pub enum CrState {
    Reconnaissance,
    Unvalidated(u64),
    Validating(u64),
    SafeRetreat(u64),
    Normal,
}

impl Default for CrState {
    fn default() -> (r: Self)
        ensures
            r == CrState::Reconnaissance,
    {
        CrState::Reconnaissance
    }
}

/// Why the controller last changed phase.
#[derive(Clone, Copy, Debug, PartialEq, Eq, Structural)]
pub enum CarefulResumeTrigger {
    CwndLimited,
    RttNotValidated,
    RttNotValidatedSingleFlight,
    CrMarkAcknowledged,
    PacketLoss,
    EcnCe,
    ExitRecovery,
}

/// The phase without its packet number, as telemetry reports it.
#[derive(Clone, Copy, Debug, PartialEq, Eq, Structural)]
pub enum CarefulResumePhase {
    Reconnaissance,
    Unvalidated,
    Validating,
    SafeRetreat,
    Normal,
}

/// The packet number carried by a phase, or zero for the two that carry none.
pub open spec fn mark_of(state: CrState) -> u64 {
    match state {
        CrState::Unvalidated(m) | CrState::Validating(m) | CrState::SafeRetreat(m) => m,
        CrState::Reconnaissance | CrState::Normal => 0,
    }
}

/// The telemetry tag of a phase.
pub open spec fn tag_of(state: CrState) -> CarefulResumePhase {
    match state {
        CrState::Reconnaissance => CarefulResumePhase::Reconnaissance,
        CrState::Unvalidated(_) => CarefulResumePhase::Unvalidated,
        CrState::Validating(_) => CarefulResumePhase::Validating,
        CrState::SafeRetreat(_) => CarefulResumePhase::SafeRetreat,
        CrState::Normal => CarefulResumePhase::Normal,
    }
}

/// Maps a phase to its telemetry tag.
pub fn map_state(state: CrState) -> (r: CarefulResumePhase)
    ensures
        r == tag_of(state),
{
    match state {
        CrState::Reconnaissance => CarefulResumePhase::Reconnaissance,
        CrState::Unvalidated(_) => CarefulResumePhase::Unvalidated,
        CrState::Validating(_) => CarefulResumePhase::Validating,
        CrState::SafeRetreat(_) => CarefulResumePhase::SafeRetreat,
        CrState::Normal => CarefulResumePhase::Normal,
    }
}

/// Returns the packet number that a phase carries, or zero.
pub fn map_cr_mark(state: CrState) -> (r: u64)
    ensures
        r == mark_of(state),
{
    match state {
        CrState::Unvalidated(m) | CrState::Validating(m) | CrState::SafeRetreat(m) => m,
        CrState::Reconnaissance | CrState::Normal => 0,
    }
}

} // verus!
