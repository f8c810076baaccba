use careful_resume::{Acked, CarefulResumeTrigger, CrState, Resume};

const MS: u64 = 1_000_000;

fn ack(r: &mut Resume, largest: u64, pkt_num: u64) -> (Option<usize>, Option<usize>) {
    r.process_ack(largest, &Acked { pkt_num, size: 1000 }, 9000)
}

// for cwnd > jump window, check crstate moves to normal
#[test]
fn cwnd_larger_than_jump() {
    let mut r = Resume::new("");
    r.setup(0, 12_000);
    r.send_packet(0, 15_000, 50, false);

    assert_eq!(r.cr_state(), CrState::Normal);
}

// for a set rtt that does not meet the conditions, check crstate moves to normal
#[test]
fn rtt_less_than_half() {
    let mut r = Resume::new("");
    r.setup(50 * MS, 12_000);
    r.send_packet(10 * MS, 1_350, 10, false);

    assert_eq!(r.cr_state(), CrState::Normal);
}

#[test]
fn rtt_greater_than_10() {
    let mut r = Resume::new("");
    r.setup(50 * MS, 12_000);
    r.send_packet(600 * MS, 1_350, 10, false);

    assert_eq!(r.cr_state(), CrState::Normal);
}

// for a set rtt that meets the conditions, check we move to unvalidated
#[test]
fn valid_rtt() {
    let mut r = Resume::new("");
    r.setup(50 * MS, 12_000);

    let jump = r.send_packet(60 * MS, 1_350, 10, false);
    assert_eq!(jump, 4_650);

    assert_eq!(r.cr_state(), CrState::Unvalidated(10));
    assert_eq!(r.pipesize(), 1_350);
}

#[test]
fn large_cwnd_wins_over_bad_rtt() {
    let mut r = Resume::new("");
    r.setup(30 * MS, 120_000);
    assert_eq!(r.send_packet(1 * MS, 15_000, 50, false), 0);
    assert_eq!(r.last_trigger(), Some(CarefulResumeTrigger::RttNotValidated));
    let mut r = Resume::new("");
    r.setup(30 * MS, 120_000);
    assert_eq!(r.send_packet(1 * MS, 60_000, 50, false), 0);
    assert_eq!(r.cr_state(), CrState::Normal);
    assert_eq!(r.last_trigger(), Some(CarefulResumeTrigger::CwndLimited));
}

#[test]
fn rtt_at_exact_bounds_diverges() {
    let mut r = Resume::new("");
    r.setup(30 * MS, 120_000);
    assert_eq!(r.send_packet(15 * MS, 1_350, 10, false), 0);
    assert_eq!(r.last_trigger(), Some(CarefulResumeTrigger::RttNotValidated));

    let mut r = Resume::new("");
    r.setup(30 * MS, 120_000);
    assert_eq!(r.send_packet(300 * MS, 1_350, 10, false), 0);
    assert_eq!(r.cr_state(), CrState::Normal);

    let mut r = Resume::new("");
    r.setup(30 * MS, 120_000);
    assert_eq!(r.send_packet(300 * MS - 1, 1_350, 10, false), 58_650);
    assert_eq!(r.cr_state(), CrState::Unvalidated(10));
}

#[test]
fn app_limited_sends_do_nothing() {
    let mut r = Resume::new("");
    r.setup(30 * MS, 120_000);
    for pkt in 0..4 {
        assert_eq!(r.send_packet(333 * MS, 12_000, pkt, true), 0);
    }
    assert_eq!(r.cr_state(), CrState::Reconnaissance);
    assert_eq!(r.pipesize(), 0);
    assert_eq!(r.last_trigger(), None);
}

fn jumped() -> Resume {
    let mut r = Resume::new("conn");
    r.setup(30 * MS, 120_000);
    for pkt in 0..4 {
        assert_eq!(r.send_packet(333 * MS, 12_000, pkt, true), 0);
    }
    assert_eq!(r.send_packet(25 * MS, 14_000, 15, false), 46_000);
    assert_eq!(r.cr_state(), CrState::Unvalidated(15));
    assert_eq!(r.pipesize(), 14_000);
    r
}

#[test]
fn happy_path_through_validation() {
    let mut r = jumped();
    for pkt in 4..15 {
        assert_eq!(ack(&mut r, 23, pkt), (None, None));
        assert_eq!(r.cr_state(), CrState::Unvalidated(15));
    }
    assert_eq!(r.pipesize(), 25_000);
    assert_eq!(ack(&mut r, 23, 15), (Some(9000), None));
    assert_eq!(r.cr_state(), CrState::Validating(23));
    assert_eq!(r.last_trigger(), Some(CarefulResumeTrigger::CrMarkAcknowledged));
    for pkt in 16..23 {
        assert_eq!(ack(&mut r, 23, pkt), (None, None));
        assert_eq!(r.cr_state(), CrState::Validating(23));
    }
    assert_eq!(ack(&mut r, 23, 23), (None, None));
    assert_eq!(r.cr_state(), CrState::Normal);
    assert_eq!(r.pipesize(), 34_000);
    assert!(!r.enabled());
}

#[test]
fn loss_while_unvalidated_retreats() {
    let mut r = jumped();
    for pkt in 5..15 {
        assert_eq!(ack(&mut r, 23, pkt), (None, None));
    }
    assert_eq!(r.congestion_event(23), 12_000);
    assert_eq!(r.cr_state(), CrState::SafeRetreat(23));
    assert_eq!(r.pipesize(), 24_000);
    assert_eq!(r.last_trigger(), Some(CarefulResumeTrigger::PacketLoss));
    // A second signal during the retreat asks for nothing.
    assert_eq!(r.congestion_event(23), 0);
    for pkt in 16..23 {
        assert_eq!(ack(&mut r, 23, pkt), (None, None));
    }
    assert_eq!(ack(&mut r, 23, 23), (None, Some(31_000)));
    assert_eq!(r.cr_state(), CrState::Normal);
    assert_eq!(r.pipesize(), 31_000);
    assert_eq!(r.last_trigger(), Some(CarefulResumeTrigger::ExitRecovery));
}

#[test]
fn loss_while_validating_keeps_old_mark() {
    let mut r = jumped();
    for pkt in 4..16 {
        ack(&mut r, 23, pkt);
    }
    assert_eq!(r.cr_state(), CrState::Validating(23));
    assert_eq!(r.pipesize(), 26_000);
    for pkt in 17..20 {
        assert_eq!(ack(&mut r, 23, pkt), (None, None));
    }
    assert_eq!(r.congestion_event(40), 14_500);
    assert_eq!(r.cr_state(), CrState::SafeRetreat(23));
    assert_eq!(r.pipesize(), 29_000);
    for pkt in 20..23 {
        assert_eq!(ack(&mut r, 40, pkt), (None, None));
    }
    assert_eq!(ack(&mut r, 40, 23), (None, Some(32_000)));
    assert_eq!(r.cr_state(), CrState::Normal);
}

#[test]
fn congestion_in_reconnaissance_ends() {
    let mut r = Resume::new("");
    r.setup(30 * MS, 120_000);
    assert_eq!(r.congestion_event(3), 0);
    assert_eq!(r.cr_state(), CrState::Normal);
    assert_eq!(r.last_trigger(), Some(CarefulResumeTrigger::PacketLoss));
    // Normal stays normal.
    assert_eq!(r.send_packet(25 * MS, 1_000, 4, false), 0);
    assert_eq!(ack(&mut r, 4, 4), (None, None));
    assert_eq!(r.congestion_event(4), 0);
    assert_eq!(r.cr_state(), CrState::Normal);
}

#[test]
fn ack_in_reconnaissance_changes_nothing() {
    let mut r = Resume::new("");
    r.setup(30 * MS, 120_000);
    assert_eq!(ack(&mut r, 3, 3), (None, None));
    assert_eq!(r.cr_state(), CrState::Reconnaissance);
    assert_eq!(r.pipesize(), 0);
}

#[test]
fn enabled_only_after_setup_until_normal() {
    let mut r = Resume::new("");
    assert!(!r.enabled());
    r.setup(30 * MS, 120_000);
    assert!(r.enabled());
    r.send_packet(25 * MS, 14_000, 15, false);
    assert!(r.enabled());
    r.congestion_event(20);
    assert!(r.enabled());
    ack(&mut r, 20, 20);
    assert!(!r.enabled());
    r.reset();
    assert!(r.enabled());
    assert_eq!(r.cr_state(), CrState::Reconnaissance);
    assert_eq!(r.pipesize(), 0);
}

fn drive(r: &mut Resume) -> Vec<(usize, Option<usize>, Option<usize>)> {
    let mut out = Vec::new();
    out.push((r.send_packet(25 * MS, 14_000, 15, false), None, None));
    for pkt in 5..15 {
        let (c, s) = ack(r, 23, pkt);
        out.push((0, c, s));
    }
    out.push((r.congestion_event(23), None, None));
    for pkt in 16..24 {
        let (c, s) = ack(r, 23, pkt);
        out.push((0, c, s));
    }
    out
}

#[test]
fn reset_behaves_like_fresh() {
    let mut used = jumped();
    ack(&mut used, 23, 15);
    used.reset();
    let mut fresh = Resume::new("");
    fresh.setup(30 * MS, 120_000);
    assert_eq!(drive(&mut used), drive(&mut fresh));
    assert_eq!(used.cr_state(), fresh.cr_state());
    assert_eq!(used.pipesize(), fresh.pipesize());
}

#[test]
fn second_setup_overrides_first() {
    let mut twice = Resume::new("");
    twice.setup(5 * MS, 1_000);
    twice.setup(30 * MS, 120_000);
    let mut once = Resume::new("");
    once.setup(30 * MS, 120_000);
    assert_eq!(drive(&mut twice), drive(&mut once));
    assert_eq!(twice.cr_state(), once.cr_state());
}

#[test]
fn trace_id_is_kept() {
    let r = Resume::new("conn-7");
    assert_eq!(r.trace_id(), "conn-7");
}

#[test]
fn ack_range_check() {
    let mut r = Resume::new("");
    r.setup(30 * MS, usize::MAX);
    let big = Acked { pkt_num: 1, size: usize::MAX };
    assert!(r.ack_in_range(&big));
    r.send_packet(25 * MS, 14_000, 15, false);
    assert!(!r.ack_in_range(&big));
    assert!(r.ack_in_range(&Acked { pkt_num: 1, size: usize::MAX - 14_000 }));
}
