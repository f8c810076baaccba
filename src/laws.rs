//! What holds of every sequence of calls on the phase machine and the
//! estimator, stated over their abstract states.
use vstd::prelude::*;

use crate::observe::{
    abs_diff, update_due, updated, window_too_small, MetricsView,
    CR_EVENT_MAXIMUM_GAP,
};
use crate::phase::CrState;
use crate::resume::{
    ack_credits, ack_cwnd, ack_ssthresh, ack_view, congestion_cwnd, congestion_view, initial_view,
    reset_view, send_jump, send_view, setup_view, Acked, ResumeView,
};

verus! {

/// A call that mutates a [`crate::resume::Resume`], with its arguments.
pub enum Event {
    Setup { previous_rtt: nat, previous_cwnd: nat },
    Reset,
    Send { rtt: nat, cwnd: nat, largest: u64, app_limited: bool },
    Ack { largest: u64, packet: Acked, flightsize: nat },
    Congestion { largest: u64 },
}

/// What such a call returns.
pub enum Reply {
    Done,
    Jump(nat),
    Advice(Option<nat>, Option<nat>),
    Cwnd(nat),
}

/// State and reply after one call.
pub open spec fn step(v: ResumeView, e: Event) -> (ResumeView, Reply) {
    match e {
        Event::Setup { previous_rtt, previous_cwnd } => (
            setup_view(v, previous_rtt, previous_cwnd),
            Reply::Done,
        ),
        Event::Reset => (reset_view(v), Reply::Done),
        Event::Send { rtt, cwnd, largest, app_limited } => (
            send_view(v, rtt, cwnd, largest, app_limited),
            Reply::Jump(send_jump(v, rtt, cwnd, app_limited)),
        ),
        Event::Ack { largest, packet, flightsize } => (
            ack_view(v, largest, packet),
            Reply::Advice(ack_cwnd(v, packet, flightsize), ack_ssthresh(v, packet)),
        ),
        Event::Congestion { largest } => (
            congestion_view(v, largest),
            Reply::Cwnd(congestion_cwnd(v)),
        ),
    }
}

/// State and replies after a sequence of calls.
pub open spec fn run(v: ResumeView, evs: Seq<Event>) -> (ResumeView, Seq<Reply>)
    decreases evs.len(),
{
    if evs.len() == 0 {
        (v, Seq::empty())
    } else {
        let (v1, r) = step(v, evs[0]);
        let (vn, rs) = run(v1, evs.drop_first());
        (vn, seq![r] + rs)
    }
}

pub open spec fn no_reset(evs: Seq<Event>) -> bool {
    forall|i: int| 0 <= i < evs.len() ==> !(#[trigger] evs[i] is Reset)
}

/// Two states that every later call treats alike.
pub open spec fn same_course(a: ResumeView, b: ResumeView) -> bool {
    &&& a.phase == b.phase
    &&& a.pipesize == b.pipesize
    &&& a.previous_rtt == b.previous_rtt
    &&& a.previous_cwnd == b.previous_cwnd
}

/// Running a sequence extended by one call is running the sequence, then
/// that call.
pub proof fn lemma_run_push(v: ResumeView, evs: Seq<Event>, e: Event)
    ensures
        run(v, evs.push(e)).0 == step(run(v, evs).0, e).0,
        run(v, evs.push(e)).1 == run(v, evs).1.push(step(run(v, evs).0, e).1),
    decreases evs.len(),
{
    assert(evs.push(e)[0] == if evs.len() == 0 { e } else { evs[0] });
    if evs.len() == 0 {
        assert(evs.push(e).drop_first() =~= Seq::<Event>::empty());
        let v1 = step(v, e).0;
        assert(run(v1, Seq::<Event>::empty()) == (v1, Seq::<Reply>::empty()));
        assert(run(v, evs) == (v, Seq::<Reply>::empty()));
        assert(run(v, evs.push(e)).1 =~= run(v, evs).1.push(step(run(v, evs).0, e).1));
    } else {
        let v1 = step(v, evs[0]).0;
        assert(evs.push(e).drop_first() =~= evs.drop_first().push(e));
        lemma_run_push(v1, evs.drop_first(), e);
        assert(run(v, evs.push(e)).1 =~= run(v, evs).1.push(step(run(v, evs).0, e).1));
    }
}

/// No call but a reset leaves the normal phase.
pub proof fn lemma_normal_absorbing(v: ResumeView, evs: Seq<Event>)
    requires
        v.phase is Normal,
        no_reset(evs),
    ensures
        run(v, evs).0.phase is Normal,
    decreases evs.len(),
{
    if evs.len() > 0 {
        assert(!(evs[0] is Reset));
        let rest = evs.drop_first();
        assert forall|i: int| 0 <= i < rest.len() implies !(#[trigger] rest[i] is Reset) by {
            assert(rest[i] == evs[i + 1]);
        }
        lemma_normal_absorbing(step(v, evs[0]).0, rest);
    }
}

/// Once careful resume is enabled, it stays enabled.
pub proof fn lemma_enabled_monotone(v: ResumeView, evs: Seq<Event>)
    requires
        v.enabled,
    ensures
        run(v, evs).0.enabled,
    decreases evs.len(),
{
    if evs.len() > 0 {
        lemma_enabled_monotone(step(v, evs[0]).0, evs.drop_first());
    }
}

/// Every call keeps the pipe size empty in reconnaissance.
pub proof fn lemma_step_inv(v: ResumeView, e: Event)
    requires
        v.inv(),
    ensures
        step(v, e).0.inv(),
{
}

/// No call but a reset makes the pipe size smaller.
pub proof fn lemma_pipesize_never_shrinks(v: ResumeView, e: Event)
    requires
        v.inv(),
        !(e is Reset),
    ensures
        step(v, e).0.pipesize >= v.pipesize,
{
}

/// The congestion event that starts a retreat returns half the pipe size and
/// keeps the pipe size; a second one, in the retreat, returns nothing.
pub proof fn lemma_retreat_halves_once(v: ResumeView, first: u64, second: u64)
    requires
        v.phase is Unvalidated || v.phase is Validating,
    ensures
        congestion_cwnd(v) == v.pipesize / 2,
        congestion_view(v, first).phase is SafeRetreat,
        congestion_view(v, first).pipesize == v.pipesize,
        congestion_cwnd(congestion_view(v, first)) == 0,
        congestion_view(congestion_view(v, first), second) == congestion_view(v, first),
{
}

pub open spec fn all_acks(evs: Seq<Event>) -> bool {
    forall|i: int| 0 <= i < evs.len() ==> #[trigger] evs[i] is Ack
}

pub open spec fn acks_below(evs: Seq<Event>, k: int, first: u64) -> bool {
    forall|i: int| 0 <= i < k ==> (#[trigger] evs[i])->Ack_packet.pkt_num < first
}

/// While unvalidated with mark `first`, acknowledgments of earlier packets
/// keep the phase.
pub proof fn lemma_unvalidated_before_mark(v: ResumeView, first: u64, evs: Seq<Event>, k: int)
    requires
        v.phase == CrState::Unvalidated(first),
        all_acks(evs),
        0 <= k <= evs.len(),
        acks_below(evs, k, first),
    ensures
        run(v, evs.take(k)).0.phase == CrState::Unvalidated(first),
    decreases k,
{
    if k > 0 {
        lemma_unvalidated_before_mark(v, first, evs, k - 1);
        assert(evs.take(k) =~= evs.take(k - 1).push(evs[k - 1]));
        lemma_run_push(v, evs.take(k - 1), evs[k - 1]);
        assert(evs[k - 1] is Ack);
    } else {
        assert(evs.take(0) =~= Seq::<Event>::empty());
    }
}

/// While unvalidated with mark `first`, the first acknowledgment of a packet
/// numbered `first` or later starts validation, with the largest packet
/// number passed with it as the new mark.
pub proof fn lemma_validation_starts_on_mark(v: ResumeView, first: u64, evs: Seq<Event>, k: int)
    requires
        v.phase == CrState::Unvalidated(first),
        all_acks(evs),
        0 <= k < evs.len(),
        acks_below(evs, k, first),
        evs[k]->Ack_packet.pkt_num >= first,
    ensures
        run(v, evs.take(k)).0.phase == CrState::Unvalidated(first),
        run(v, evs.take(k + 1)).0.phase == CrState::Validating(evs[k]->Ack_largest),
{
    lemma_unvalidated_before_mark(v, first, evs, k);
    assert(evs.take(k + 1) =~= evs.take(k).push(evs[k]));
    lemma_run_push(v, evs.take(k), evs[k]);
    assert(evs[k] is Ack);
}

/// A call that hands the outer controller a new window changes the phase.
pub proof fn lemma_new_cwnd_changes_phase(v: ResumeView, e: Event)
    ensures
        step(v, e).1 matches Reply::Advice(Some(_), _) ==> step(v, e).0.phase != v.phase,
        step(v, e).1 matches Reply::Cwnd(c) && c > 0 ==> step(v, e).0.phase != v.phase,
{
}

/// Calls treat states that agree on phase, pipe size and remembered
/// parameters alike.
pub proof fn lemma_same_course_run(a: ResumeView, b: ResumeView, evs: Seq<Event>)
    requires
        same_course(a, b),
    ensures
        same_course(run(a, evs).0, run(b, evs).0),
        run(a, evs).1 == run(b, evs).1,
    decreases evs.len(),
{
    if evs.len() > 0 {
        let e = evs[0];
        assert(same_course(step(a, e).0, step(b, e).0) && step(a, e).1 == step(b, e).1) by {
            match e {
                Event::Ack { largest, packet, flightsize } => {
                    assert(ack_credits(a, packet) == ack_credits(b, packet));
                },
                _ => {},
            }
        }
        lemma_same_course_run(step(a, e).0, step(b, e).0, evs.drop_first());
    }
}

/// After a reset, any sequence of calls runs as it does on a freshly built
/// controller set up with the same remembered parameters: same replies, same
/// phase, same pipe size.
pub proof fn lemma_reset_like_fresh(v: ResumeView, evs: Seq<Event>)
    ensures
        ({
            let fresh = setup_view(initial_view(), v.previous_rtt, v.previous_cwnd);
            &&& run(reset_view(v), evs).1 == run(fresh, evs).1
            &&& same_course(run(reset_view(v), evs).0, run(fresh, evs).0)
        }),
{
    let fresh = setup_view(initial_view(), v.previous_rtt, v.previous_cwnd);
    lemma_same_course_run(reset_view(v), fresh, evs);
}

/// Setting up twice is setting up once, with the second parameters.
pub proof fn lemma_setup_twice(v: ResumeView, rtt1: nat, cwnd1: nat, rtt2: nat, cwnd2: nat)
    ensures
        setup_view(setup_view(v, rtt1, cwnd1), rtt2, cwnd2) == setup_view(v, rtt2, cwnd2),
{
}

/// A window under four initial windows is never emitted.
pub proof fn lemma_small_window_silent(m: MetricsView, now: nat, min_rtt: nat, cwnd: nat)
    requires
        window_too_small(m, cwnd),
    ensures
        !update_due(m, now, min_rtt, cwnd),
{
}

/// Once an observation is emitted, the same observation is not emitted again
/// before the maximum gap has passed.
pub proof fn lemma_repeat_silent_within_gap(
    m: MetricsView,
    now: nat,
    min_rtt: nat,
    cwnd: nat,
    later: nat,
)
    requires
        later <= now + CR_EVENT_MAXIMUM_GAP,
    ensures
        !update_due(updated(m, now, min_rtt, cwnd), later, min_rtt, cwnd),
{
    assert(abs_diff(min_rtt / 1000, min_rtt / 1000) == 0);
    assert(abs_diff(cwnd, cwnd) == 0);
}

/// After the maximum gap without an emission, any observation with a window
/// of at least four initial windows is emitted.
pub proof fn lemma_silence_forces_update(m: MetricsView, now: nat, min_rtt: nat, cwnd: nat)
    requires
        now > m.last_update + CR_EVENT_MAXIMUM_GAP,
        !window_too_small(m, cwnd),
    ensures
        update_due(m, now, min_rtt, cwnd),
{
}

} // verus!
