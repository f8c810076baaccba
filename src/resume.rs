use vstd::prelude::*;

use crate::phase::{map_cr_mark, map_state, CarefulResumeTrigger, CrState};

use crate::telemetry::{phase_update, PhaseUpdate, RestoredParameters};

verus! {

/// An acknowledged packet, as far as careful resume reads it.
#[derive(Clone, Copy, Debug, PartialEq, Eq, Structural)]
pub struct Acked {
    pub pkt_num: u64,
    /// Size of the packet in bytes.
    pub size: usize,
}

/// The abstract state of a [`Resume`].
pub struct ResumeView {
    pub enabled: bool,
    pub phase: CrState,
    /// Remembered minimum RTT of the earlier connection, in nanoseconds.
    pub previous_rtt: nat,
    /// Remembered congestion window of the earlier connection, in bytes.
    pub previous_cwnd: nat,
    /// Bytes credited as carried by the path since the jump.
    pub pipesize: nat,
    /// The trigger of the last phase change, if any.
    pub last_trigger: Option<CarefulResumeTrigger>,
    /// The phase last reported to telemetry, if any.
    pub reported: Option<CrState>,
}

impl ResumeView {
    /// Only a jump sets the pipe size, and a jump leaves reconnaissance.
    pub open spec fn inv(self) -> bool {
        self.phase is Reconnaissance ==> self.pipesize == 0
    }

    /// Careful resume is configured and has not finished.
    pub open spec fn is_active(self) -> bool {
        self.enabled && !(self.phase is Normal)
    }

    /// The same state in phase `phase`, changed for `trigger`.
    pub open spec fn with_phase(self, phase: CrState, trigger: CarefulResumeTrigger) -> ResumeView {
        ResumeView { phase, last_trigger: Some(trigger), ..self }
    }
}

/// The state of a freshly built controller.
pub open spec fn initial_view() -> ResumeView {
    ResumeView {
        enabled: false,
        phase: CrState::Reconnaissance,
        previous_rtt: 0,
        previous_cwnd: 0,
        pipesize: 0,
        last_trigger: None,
        reported: None,
    }
}

pub open spec fn setup_view(v: ResumeView, previous_rtt: nat, previous_cwnd: nat) -> ResumeView {
    ResumeView { enabled: true, previous_rtt, previous_cwnd, ..v }
}

pub open spec fn reset_view(v: ResumeView) -> ResumeView {
    ResumeView { phase: CrState::Reconnaissance, pipesize: 0, ..v }
}

/// Bytes by which the window must grow to reach half the remembered window.
pub open spec fn jump_target(previous_cwnd: nat, cwnd: nat) -> nat {
    if previous_cwnd / 2 > cwnd {
        (previous_cwnd / 2 - cwnd) as nat
    } else {
        0
    }
}

/// The RTT sample is at most half, or at least ten times, the remembered RTT.
pub open spec fn rtt_diverges(rtt: nat, previous_rtt: nat) -> bool {
    rtt <= previous_rtt / 2 || rtt >= previous_rtt * 10
}

/// A packet sent while not application-limited, in reconnaissance.
pub open spec fn send_decides(v: ResumeView, app_limited: bool) -> bool {
    !app_limited && v.phase is Reconnaissance
}

/// State after a packet is sent.
pub open spec fn send_view(v: ResumeView, rtt: nat, cwnd: nat, largest: u64, app_limited: bool) -> ResumeView {
    if !send_decides(v, app_limited) {
        v
    } else if jump_target(v.previous_cwnd, cwnd) == 0 {
        v.with_phase(CrState::Normal, CarefulResumeTrigger::CwndLimited)
    } else if rtt_diverges(rtt, v.previous_rtt) {
        v.with_phase(CrState::Normal, CarefulResumeTrigger::RttNotValidated)
    } else {
        ResumeView {
            pipesize: cwnd,
            ..v.with_phase(CrState::Unvalidated(largest), CarefulResumeTrigger::CwndLimited)
        }
    }
}

/// Bytes by which the outer controller enlarges its window after a packet is sent.
pub open spec fn send_jump(v: ResumeView, rtt: nat, cwnd: nat, app_limited: bool) -> nat {
    if send_decides(v, app_limited) && !rtt_diverges(rtt, v.previous_rtt) {
        jump_target(v.previous_cwnd, cwnd)
    } else {
        0
    }
}

/// The acknowledgment adds the packet's size to the pipe size.
pub open spec fn ack_credits(v: ResumeView, packet: Acked) -> bool {
    match v.phase {
        CrState::Unvalidated(_) | CrState::Validating(_) => true,
        CrState::SafeRetreat(m) => packet.pkt_num < m,
        _ => false,
    }
}

/// State after a packet is acknowledged.
pub open spec fn ack_view(v: ResumeView, largest: u64, packet: Acked) -> ResumeView {
    let credited = if ack_credits(v, packet) {
        ResumeView { pipesize: (v.pipesize + packet.size) as nat, ..v }
    } else {
        v
    };
    match v.phase {
        CrState::Unvalidated(first) => if packet.pkt_num >= first {
            credited.with_phase(CrState::Validating(largest), CarefulResumeTrigger::CrMarkAcknowledged)
        } else {
            credited
        },
        CrState::Validating(last) => if packet.pkt_num >= last {
            credited.with_phase(CrState::Normal, CarefulResumeTrigger::CrMarkAcknowledged)
        } else {
            credited
        },
        CrState::SafeRetreat(mark) => if packet.pkt_num >= mark {
            v.with_phase(CrState::Normal, CarefulResumeTrigger::ExitRecovery)
        } else {
            credited
        },
        _ => v,
    }
}

/// New congestion window after an acknowledgment: the bytes in flight, when
/// the first packet sent after the jump is acknowledged.
pub open spec fn ack_cwnd(v: ResumeView, packet: Acked, flightsize: nat) -> Option<nat> {
    match v.phase {
        CrState::Unvalidated(first) if packet.pkt_num >= first => Some(flightsize),
        _ => None,
    }
}

/// New slow-start threshold after an acknowledgment: the pipe size, when the
/// retreat ends.
pub open spec fn ack_ssthresh(v: ResumeView, packet: Acked) -> Option<nat> {
    match v.phase {
        CrState::SafeRetreat(mark) if packet.pkt_num >= mark => Some(v.pipesize),
        _ => None,
    }
}

/// State after a congestion event.
pub open spec fn congestion_view(v: ResumeView, largest: u64) -> ResumeView {
    match v.phase {
        CrState::Unvalidated(_) => v.with_phase(CrState::SafeRetreat(largest), CarefulResumeTrigger::PacketLoss),
        CrState::Validating(p) => v.with_phase(CrState::SafeRetreat(p), CarefulResumeTrigger::PacketLoss),
        CrState::Reconnaissance => v.with_phase(CrState::Normal, CarefulResumeTrigger::PacketLoss),
        _ => v,
    }
}

/// Window that careful resume asks for after a congestion event; zero asks
/// for no change.
pub open spec fn congestion_cwnd(v: ResumeView) -> nat {
    match v.phase {
        CrState::Unvalidated(_) | CrState::Validating(_) => v.pipesize / 2,
        _ => 0,
    }
}

pub open spec fn opt_nat(o: Option<usize>) -> Option<nat> {
    match o {
        Some(x) => Some(x as nat),
        None => None,
    }
}

/// The careful-resume phase machine of one connection.
#[derive(Debug)]
pub struct Resume {
    trace_id: String,
    enabled: bool,
    cr_state: CrState,
    previous_rtt: u64,
    previous_cwnd: usize,
    pipesize: usize,
    last_trigger: Option<CarefulResumeTrigger>,
    reported: Option<CrState>,
}

impl View for Resume {
    type V = ResumeView;

    closed spec fn view(&self) -> ResumeView {
        ResumeView {
            enabled: self.enabled,
            phase: self.cr_state,
            previous_rtt: self.previous_rtt as nat,
            previous_cwnd: self.previous_cwnd as nat,
            pipesize: self.pipesize as nat,
            last_trigger: self.last_trigger,
            reported: self.reported,
        }
    }
}

impl Resume {
    pub fn new(trace_id: &str) -> (r: Self)
        ensures
            r@ == initial_view(),
            r.spec_trace_id() == trace_id@,
    {
        Resume {
            trace_id: trace_id.to_owned(),
            enabled: false,
            cr_state: CrState::default(),
            previous_rtt: 0,
            previous_cwnd: 0,
            pipesize: 0,
            last_trigger: None,
            reported: None,
        }
    }

    /// Enables careful resume with the parameters remembered from an earlier
    /// connection: its minimum RTT in nanoseconds and its congestion window in
    /// bytes. The phase is left as it is.
    pub fn setup(&mut self, previous_rtt: u64, previous_cwnd: usize)
        ensures
            final(self)@ == setup_view(old(self)@, previous_rtt as nat, previous_cwnd as nat),
    {
        self.enabled = true;
        self.previous_rtt = previous_rtt;
        self.previous_cwnd = previous_cwnd;
    }

    /// Returns to reconnaissance with an empty pipe; the configuration stays.
    pub fn reset(&mut self)
        ensures
            final(self)@ == reset_view(old(self)@),
    {
        self.cr_state = CrState::default();
        self.pipesize = 0;
    }

    /// Careful resume is configured and has not reached its normal phase.
    pub fn enabled(&self) -> (r: bool)
        ensures
            r == self@.is_active(),
    {
        if self.enabled {
            !matches!(self.cr_state, CrState::Normal)
        } else {
            false
        }
    }

    fn change_state(&mut self, state: CrState, trigger: CarefulResumeTrigger)
        ensures
            final(self)@ == old(self)@.with_phase(state, trigger),
            final(self).spec_trace_id() == old(self).spec_trace_id(),
    {
        self.cr_state = state;
        self.last_trigger = Some(trigger);
    }

    /// The acknowledgment of `packet` can be credited without the pipe size
    /// leaving the range of `usize`.
    pub fn ack_in_range(&self, packet: &Acked) -> (r: bool)
        ensures
            r == (ack_credits(self@, *packet) ==> self@.pipesize + packet.size <= usize::MAX),
    {
        let credits = match self.cr_state {
            CrState::Unvalidated(_) | CrState::Validating(_) => true,
            CrState::SafeRetreat(m) => packet.pkt_num < m,
            _ => false,
        };
        !credits || packet.size <= usize::MAX - self.pipesize
    }

    /// Handles the acknowledgment of one packet, given the largest packet
    /// number sent so far and the bytes in flight. Returns the congestion
    /// window and the slow-start threshold that the outer controller should
    /// adopt, each when careful resume asks for one.
    pub fn process_ack(&mut self, largest_pkt_sent: u64, packet: &Acked, flightsize: usize) -> (r: (
        Option<usize>,
        Option<usize>,
    ))
        requires
            ack_credits(old(self)@, *packet) ==> old(self)@.pipesize + packet.size <= usize::MAX,
        ensures
            final(self)@ == ack_view(old(self)@, largest_pkt_sent, *packet),
            opt_nat(r.0) == ack_cwnd(old(self)@, *packet, flightsize as nat),
            opt_nat(r.1) == ack_ssthresh(old(self)@, *packet),
            r.0 is Some ==> final(self)@.phase != old(self)@.phase,
    {
        match self.cr_state {
            CrState::Unvalidated(first_packet) => {
                self.pipesize = self.pipesize + packet.size;
                if packet.pkt_num >= first_packet {
                    // The validating phase waits for the last packet sent while unvalidated.
                    self.change_state(
                        CrState::Validating(largest_pkt_sent),
                        CarefulResumeTrigger::CrMarkAcknowledged,
                    );
                    (Some(flightsize), None)
                } else {
                    (None, None)
                }
            },
            CrState::Validating(last_packet) => {
                self.pipesize = self.pipesize + packet.size;
                if packet.pkt_num >= last_packet {
                    self.change_state(CrState::Normal, CarefulResumeTrigger::CrMarkAcknowledged);
                }
                (None, None)
            },
            CrState::SafeRetreat(last_packet) => {
                if packet.pkt_num >= last_packet {
                    self.change_state(CrState::Normal, CarefulResumeTrigger::ExitRecovery);
                    (None, Some(self.pipesize))
                } else {
                    self.pipesize = self.pipesize + packet.size;
                    (None, None)
                }
            },
            _ => (None, None),
        }
    }

    /// Handles a packet handed to the wire, given the current RTT sample in
    /// nanoseconds, the outer controller's window, the largest packet number
    /// sent and whether sending is application-limited. Returns the bytes by
    /// which the outer controller should enlarge its window.
    pub fn send_packet(
        &mut self,
        rtt_sample: u64,
        cwnd: usize,
        largest_pkt_sent: u64,
        app_limited: bool,
    ) -> (r: usize)
        ensures
            final(self)@ == send_view(
                old(self)@,
                rtt_sample as nat,
                cwnd as nat,
                largest_pkt_sent,
                app_limited,
            ),
            r as nat == send_jump(old(self)@, rtt_sample as nat, cwnd as nat, app_limited),
    {
        // An application-limited sender could not validate a higher rate.
        if app_limited {
            return 0;
        }
        if matches!(self.cr_state, CrState::Reconnaissance) {
            let jump: usize = (self.previous_cwnd / 2).saturating_sub(cwnd);
            if jump == 0 {
                self.change_state(CrState::Normal, CarefulResumeTrigger::CwndLimited);
                return 0;
            }
            // The path must look like the one the parameters were measured on.
            if rtt_sample <= self.previous_rtt / 2 || rtt_sample / 10 >= self.previous_rtt {
                self.change_state(CrState::Normal, CarefulResumeTrigger::RttNotValidated);
                return 0;
            }
            self.change_state(
                CrState::Unvalidated(largest_pkt_sent),
                CarefulResumeTrigger::CwndLimited,
            );
            self.pipesize = cwnd;
            return jump;
        }
        0
    }

    /// Handles a loss or congestion signal, given the largest packet number
    /// sent. Returns the window the outer controller should adopt; zero asks
    /// for no change.
    pub fn congestion_event(&mut self, largest_pkt_sent: u64) -> (r: usize)
        ensures
            final(self)@ == congestion_view(old(self)@, largest_pkt_sent),
            r as nat == congestion_cwnd(old(self)@),
    {
        match self.cr_state {
            CrState::Unvalidated(_) => {
                self.change_state(
                    CrState::SafeRetreat(largest_pkt_sent),
                    CarefulResumeTrigger::PacketLoss,
                );
                self.pipesize / 2
            },
            CrState::Validating(p) => {
                // The retreat ends with the packet that validation waited for.
                self.change_state(CrState::SafeRetreat(p), CarefulResumeTrigger::PacketLoss);
                self.pipesize / 2
            },
            CrState::Reconnaissance => {
                self.change_state(CrState::Normal, CarefulResumeTrigger::PacketLoss);
                0
            },
            _ => 0,
        }
    }

    /// Reports the current phase, with the given window and slow-start
    /// threshold, when it differs from the phase reported last.
    pub fn maybe_qlog(&mut self, cwnd: usize, ssthresh: usize) -> (r: Option<PhaseUpdate>)
        ensures
            r == phase_update(old(self)@, cwnd, ssthresh),
            final(self)@ == (ResumeView { reported: Some(old(self)@.phase), ..old(self)@ }),
    {
        if let Some(reported) = self.reported {
            if reported == self.cr_state {
                return None;
            }
        }
        let previous = match self.reported {
            Some(s) => Some(map_state(s)),
            None => None,
        };
        let restored = if self.previous_rtt != 0 || self.previous_cwnd != 0 {
            Some(RestoredParameters { previous_cwnd: self.previous_cwnd, previous_rtt: self.previous_rtt })
        } else {
            None
        };
        self.reported = Some(self.cr_state);
        Some(
            PhaseUpdate {
                old_phase: previous,
                new_phase: map_state(self.cr_state),
                pipesize: self.pipesize,
                cr_mark: map_cr_mark(self.cr_state),
                cwnd,
                ssthresh,
                restored,
                trigger: self.last_trigger,
            },
        )
    }

    /// The current phase.
    pub fn cr_state(&self) -> (r: CrState)
        ensures
            r == self@.phase,
    {
        self.cr_state
    }

    /// Bytes credited as carried by the path since the jump.
    pub fn pipesize(&self) -> (r: usize)
        ensures
            r as nat == self@.pipesize,
    {
        self.pipesize
    }

    /// The trigger of the last phase change, if any.
    pub fn last_trigger(&self) -> (r: Option<CarefulResumeTrigger>)
        ensures
            r == self@.last_trigger,
    {
        self.last_trigger
    }

    pub closed spec fn spec_trace_id(&self) -> Seq<char> {
        self.trace_id@
    }

    /// The label that this controller's connection is known by.
    pub fn trace_id(&self) -> (r: &str)
        ensures
            r@ == self.spec_trace_id(),
    {
        self.trace_id.as_str()
    }
}

} // verus!
