//! Careful Resume for a QUIC congestion controller: the phase machine that
//! decides when to jump the congestion window toward parameters remembered
//! from an earlier connection, and the estimator that picks which fresh
//! (min-RTT, cwnd) observations are worth remembering for the next one.

pub mod phase;
pub mod observe;
pub mod laws;
pub mod resume;
pub mod telemetry;

pub use observe::{CREvent, CRMetrics};
pub use phase::{map_cr_mark, map_state, CarefulResumePhase, CarefulResumeTrigger, CrState};
pub use resume::{Acked, Resume};
pub use telemetry::{PhaseUpdate, RestoredParameters};
