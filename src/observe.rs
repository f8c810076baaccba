use vstd::prelude::*;

verus! {

/// Longest time, in nanoseconds, that an observation stays unrefreshed.
pub const CR_EVENT_MAXIMUM_GAP: u128 = 60_000_000_000;

pub const NANOS_PER_SEC: u128 = 1_000_000_000;

#[verifier::external_type_specification]
#[verifier::external_body]
pub struct ExInstant(std::time::Instant);

/// Relies on std::time::Instant::now: a reading of the monotonic clock.
pub assume_specification[ std::time::Instant::now ]() -> std::time::Instant;

/// Relies on std::time::Instant::elapsed: the time since `origin` on the
/// monotonic clock, in nanoseconds. Nothing is known of its value.
#[verifier::external_body]
fn nanos_since(origin: &std::time::Instant) -> (r: u128) {
    origin.elapsed().as_nanos()
}

/// An observation of the path, to be remembered for a later connection.
#[derive(Clone, Copy, Debug, PartialEq, Eq, Structural)]
pub struct CREvent {
    /// A windowed minimum round-trip time, in nanoseconds.
    pub min_rtt: u64,
    /// The congestion window, in bytes.
    pub cwnd: usize,
}

/// The abstract state of a [`CRMetrics`].
pub struct MetricsView {
    /// The connection's initial window, in bytes.
    pub iw: nat,
    /// Minimum RTT of the last observation emitted, in nanoseconds.
    pub min_rtt: nat,
    /// Congestion window of the last observation emitted, in bytes.
    pub cwnd: nat,
    /// When the last observation was emitted, in nanoseconds on the
    /// estimator's own clock.
    pub last_update: nat,
}

/// Time since the last observation; a clock reading before it counts as none.
pub open spec fn elapsed_since(m: MetricsView, now: nat) -> nat {
    if now > m.last_update {
        (now - m.last_update) as nat
    } else {
        0
    }
}

pub open spec fn abs_diff(a: nat, b: nat) -> nat {
    if a >= b {
        (a - b) as nat
    } else {
        (b - a) as nat
    }
}

/// `new` lies outside the band `prev * (1 - r) ..= prev * (1 + r)`, where
/// `r` is one over the elapsed time in seconds.
pub open spec fn outside_band(prev: nat, new: nat, elapsed: nat) -> bool {
    abs_diff(prev, new) * elapsed > prev * NANOS_PER_SEC
}

/// The window is too small to be worth remembering.
pub open spec fn window_too_small(m: MetricsView, cwnd: nat) -> bool {
    cwnd < m.iw * 4
}

/// An observation of `min_rtt` (nanoseconds) and `cwnd` at clock reading
/// `now` is emitted.
pub open spec fn update_due(m: MetricsView, now: nat, min_rtt: nat, cwnd: nat) -> bool {
    let e = elapsed_since(m, now);
    !window_too_small(m, cwnd) && (e > CR_EVENT_MAXIMUM_GAP || (e != 0 && (outside_band(
        m.min_rtt / 1000,
        min_rtt / 1000,
        e,
    ) || outside_band(m.cwnd, cwnd, e))))
}

pub open spec fn updated(m: MetricsView, now: nat, min_rtt: nat, cwnd: nat) -> MetricsView {
    MetricsView { min_rtt, cwnd, last_update: now, ..m }
}

/// Picks the (min-RTT, cwnd) observations that differ enough from the last
/// one emitted to be remembered for the next connection.
pub struct CRMetrics {
    trace_id: String,
    iw: usize,
    min_rtt: u64,
    cwnd: usize,
    last_update: u128,
    clock: std::time::Instant,
}

impl View for CRMetrics {
    type V = MetricsView;

    closed spec fn view(&self) -> MetricsView {
        MetricsView {
            iw: self.iw as nat,
            min_rtt: self.min_rtt as nat,
            cwnd: self.cwnd as nat,
            last_update: self.last_update as nat,
        }
    }
}

proof fn lemma_product_bound(d: nat, e: nat)
    requires
        d <= u64::MAX,
        e <= CR_EVENT_MAXIMUM_GAP,
    ensures
        d * e <= u64::MAX * CR_EVENT_MAXIMUM_GAP,
        d * NANOS_PER_SEC <= u64::MAX * NANOS_PER_SEC,
{
    assert(d * e <= u64::MAX * CR_EVENT_MAXIMUM_GAP) by (nonlinear_arith)
        requires
            d <= u64::MAX,
            e <= CR_EVENT_MAXIMUM_GAP,
    ;
    assert(d * NANOS_PER_SEC <= u64::MAX * NANOS_PER_SEC) by (nonlinear_arith)
        requires
            d <= u64::MAX,
    ;
}

/// Decides whether `new` lies outside the tolerance band around `prev` after
/// `elapsed` nanoseconds.
fn leaves_band(prev: u64, new: u64, elapsed: u128) -> (r: bool)
    requires
        elapsed <= CR_EVENT_MAXIMUM_GAP,
    ensures
        r == outside_band(prev as nat, new as nat, elapsed as nat),
{
    let diff: u64 = if prev >= new {
        prev - new
    } else {
        new - prev
    };
    proof {
        lemma_product_bound(diff as nat, elapsed as nat);
        lemma_product_bound(prev as nat, 0);
    }
    (diff as u128) * elapsed > (prev as u128) * NANOS_PER_SEC
}

impl CRMetrics {
    /// A new estimator for a connection with initial window `iw`; nothing has
    /// been emitted yet, and its clock starts now.
    pub fn new(trace_id: &str, iw: usize) -> (r: Self)
        ensures
            r@ == (MetricsView { iw: iw as nat, min_rtt: 0, cwnd: 0, last_update: 0 }),
            r.spec_trace_id() == trace_id@,
    {
        CRMetrics {
            trace_id: trace_id.to_owned(),
            iw,
            min_rtt: 0,
            cwnd: 0,
            last_update: 0,
            clock: std::time::Instant::now(),
        }
    }

    /// Offers the observation `new_min_rtt` (nanoseconds) and `new_cwnd` at
    /// clock reading `now` (nanoseconds since this estimator was built).
    /// Returns it, and remembers it, when it is due.
    pub fn observe_at(&mut self, now: u128, new_min_rtt: u64, new_cwnd: usize) -> (r: Option<CREvent>)
        ensures
            update_due(old(self)@, now as nat, new_min_rtt as nat, new_cwnd as nat) ==> {
                &&& r == Some(CREvent { min_rtt: new_min_rtt, cwnd: new_cwnd })
                &&& final(self)@ == updated(old(self)@, now as nat, new_min_rtt as nat, new_cwnd as nat)
            },
            !update_due(old(self)@, now as nat, new_min_rtt as nat, new_cwnd as nat) ==> {
                &&& r is None
                &&& final(self)@ == old(self)@
            },
            final(self).spec_trace_id() == old(self).spec_trace_id(),
    {
        let elapsed: u128 = now.saturating_sub(self.last_update);
        let should_update = if (new_cwnd as u128) < (self.iw as u128) * 4 {
            false
        } else if elapsed > CR_EVENT_MAXIMUM_GAP {
            true
        } else if elapsed == 0 {
            false
        } else {
            leaves_band(self.min_rtt / 1000, new_min_rtt / 1000, elapsed)
                || leaves_band(self.cwnd as u64, new_cwnd as u64, elapsed)
        };
        if should_update {
            self.min_rtt = new_min_rtt;
            self.cwnd = new_cwnd;
            self.last_update = now;
            Some(CREvent { min_rtt: new_min_rtt, cwnd: new_cwnd })
        } else {
            None
        }
    }

    /// Offers the observation `new_min_rtt` (nanoseconds) and `new_cwnd` now.
    /// Returns it, and remembers it, when it is due at the clock reading
    /// taken.
    pub fn maybe_update(&mut self, new_min_rtt: u64, new_cwnd: usize) -> (r: Option<CREvent>)
        ensures
            window_too_small(old(self)@, new_cwnd as nat) ==> r is None,
            r is None ==> final(self)@ == old(self)@,
            r is Some ==> {
                &&& r == Some(CREvent { min_rtt: new_min_rtt, cwnd: new_cwnd })
                &&& update_due(old(self)@, final(self)@.last_update, new_min_rtt as nat, new_cwnd as nat)
                &&& final(self)@ == updated(
                    old(self)@,
                    final(self)@.last_update,
                    new_min_rtt as nat,
                    new_cwnd as nat,
                )
            },
    {
        let now: u128 = nanos_since(&self.clock);
        self.observe_at(now, new_min_rtt, new_cwnd)
    }

    /// The initial window, in bytes.
    pub fn iw(&self) -> (r: usize)
        ensures
            r as nat == self@.iw,
    {
        self.iw
    }

    pub closed spec fn spec_trace_id(&self) -> Seq<char> {
        self.trace_id@
    }

    /// The label that this estimator's connection is known by.
    pub fn trace_id(&self) -> (r: &str)
        ensures
            r@ == self.spec_trace_id(),
    {
        self.trace_id.as_str()
    }
}

} // verus!
