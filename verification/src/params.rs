//! The scheduler's tunables.
//!
//! Every decision re-reads these knobs, so an embedding can adjust them
//! while a connection is live.  The caller resolves them (typically from
//! named configuration entries) into this record before each query;
//! malformed or absent entries fall back to the defaults below.

use vstd::prelude::*;

verus! {

/// Delay before the background policy emits once a round is latched.
pub const DEFAULT_DELAYING_DURATION_US: u64 = 2000;

/// Minimum burst size, in bytes, that warrants a protection round.
pub const DEFAULT_BURST_SIZE_BYTES: u64 = 15000;

/// Deliberate emission delay within a burst-protection round.
pub const DEFAULT_MAX_JITTER_US: u64 = 0;

/// Cooldown since the earliest unprotected source symbol was sent.
pub const DEFAULT_FEC_COOLDOWN_US: u64 = 0;

/// Denominator of the fraction of large bursts that gets protected.
pub const DEFAULT_FRAC_DENOMINATOR_TO_PROTECT: u64 = 2;

/// Congestion-window headroom, in bytes, reserved for new source data.
pub const DEFAULT_MINIMUM_ROOM_IN_CWIN: u64 = 5000;

/// Bandwidth target, in bits per second, under which repair doubles as a
/// probe on app-limited repair-only paths.  Zero disables probing.
pub const DEFAULT_BANDWIDTH_PROBING_BPS: u64 = 0;

/// The tunables, resolved to concrete values for one decision.
#[derive(Clone, Copy, Debug)]
pub struct FECSchedulerParams {
    pub background_delaying_duration_us: u64,
    pub burst_size_bytes: u64,
    pub max_jitter_us: u64,
    pub fec_cooldown_us: u64,
    pub frac_denominator_to_protect: u64,
    pub minimum_room_in_cwin: u64,
    pub bandwidth_probing_bps: u64,
}

/// The record holding every default.
pub open spec fn default_params() -> FECSchedulerParams {
    FECSchedulerParams {
        background_delaying_duration_us: DEFAULT_DELAYING_DURATION_US,
        burst_size_bytes: DEFAULT_BURST_SIZE_BYTES,
        max_jitter_us: DEFAULT_MAX_JITTER_US,
        fec_cooldown_us: DEFAULT_FEC_COOLDOWN_US,
        frac_denominator_to_protect: DEFAULT_FRAC_DENOMINATOR_TO_PROTECT,
        minimum_room_in_cwin: DEFAULT_MINIMUM_ROOM_IN_CWIN,
        bandwidth_probing_bps: DEFAULT_BANDWIDTH_PROBING_BPS,
    }
}

impl FECSchedulerParams {
    /// A resolved record is usable when the protection denominator is a
    /// positive divisor.  A zero denominator would make the budget
    /// undefined, so callers resolving a zero fall back to the default.
    pub open spec fn wf(self) -> bool {
        self.frac_denominator_to_protect >= 1
    }
}

impl Default for FECSchedulerParams {
    fn default() -> (p: Self)
        ensures
            p == default_params(),
            p.wf(),
    {
        FECSchedulerParams {
            background_delaying_duration_us: DEFAULT_DELAYING_DURATION_US,
            burst_size_bytes: DEFAULT_BURST_SIZE_BYTES,
            max_jitter_us: DEFAULT_MAX_JITTER_US,
            fec_cooldown_us: DEFAULT_FEC_COOLDOWN_US,
            frac_denominator_to_protect: DEFAULT_FRAC_DENOMINATOR_TO_PROTECT,
            minimum_room_in_cwin: DEFAULT_MINIMUM_ROOM_IN_CWIN,
            bandwidth_probing_bps: DEFAULT_BANDWIDTH_PROBING_BPS,
        }
    }
}

} // verus!
