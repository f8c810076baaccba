use careful_resume::{
    map_cr_mark, map_state, CarefulResumePhase, CarefulResumeTrigger, CrState, PhaseUpdate,
    RestoredParameters, Resume,
};

#[test]
fn first_report_then_silence() {
    let mut r = Resume::new("");
    let first = r.maybe_qlog(12_000, 7);
    assert_eq!(
        first,
        Some(PhaseUpdate {
            old_phase: None,
            new_phase: CarefulResumePhase::Reconnaissance,
            pipesize: 0,
            cr_mark: 0,
            cwnd: 12_000,
            ssthresh: 7,
            restored: None,
            trigger: None,
        })
    );
    assert_eq!(r.maybe_qlog(13_000, 7), None);
}

#[test]
fn report_after_jump() {
    let mut r = Resume::new("");
    r.setup(30_000_000, 120_000);
    assert!(r.maybe_qlog(12_000, 1).is_some());
    r.send_packet(25_000_000, 14_000, 15, false);
    assert_eq!(
        r.maybe_qlog(60_000, 2),
        Some(PhaseUpdate {
            old_phase: Some(CarefulResumePhase::Reconnaissance),
            new_phase: CarefulResumePhase::Unvalidated,
            pipesize: 14_000,
            cr_mark: 15,
            cwnd: 60_000,
            ssthresh: 2,
            restored: Some(RestoredParameters { previous_cwnd: 120_000, previous_rtt: 30_000_000 }),
            trigger: Some(CarefulResumeTrigger::CwndLimited),
        })
    );
    assert_eq!(r.maybe_qlog(60_000, 2), None);
}

#[test]
fn phase_mapping() {
    assert_eq!(map_state(CrState::SafeRetreat(9)), CarefulResumePhase::SafeRetreat);
    assert_eq!(map_state(CrState::Normal), CarefulResumePhase::Normal);
    assert_eq!(map_cr_mark(CrState::Validating(23)), 23);
    assert_eq!(map_cr_mark(CrState::Normal), 0);
    assert_eq!(map_cr_mark(CrState::Reconnaissance), 0);
}
