//! The burst-protecting policy.
//!
//! The application is treated as emitting bursts of source data separated
//! by idle gaps.  Each finished burst large enough to matter is protected
//! by one sending round of repair, sized to the burst and shaped by loss
//! statistics, optionally delayed by a bounded jitter to absorb reordering
//! and loss-detection latency.  A round expires one smoothed round-trip
//! time after it was opened, and its byte ceiling only ever grows while it
//! lasts, so that a shrinking congestion window cannot silently abort a
//! protection round half-way.

use vstd::prelude::*;

use crate::numeric::clamp_u64;
use crate::numeric::imax;
use crate::numeric::imin;
use crate::numeric::lemma_u64_mul_fits_u128;
use crate::numeric::min_u128;
use crate::numeric::sat_mul_u128;
use crate::params::FECSchedulerParams;
use crate::views::nothing_to_send;
use crate::views::path_bif;
use crate::views::protection_budget;
use crate::views::protection_budget_u128;
use crate::views::bif_of_path;
use crate::views::ConnectionView;
use crate::views::EncoderView;
use crate::views::PathView;

verus! {

/// One burst-protection round in progress.
#[derive(Clone, Copy, Debug)]
pub struct SendingState {
    /// When the round was opened; it expires one round-trip time later.
    pub start_time: u64,
    /// Earliest wall-clock instant at which this round may emit.
    pub when: u64,
    /// The connection's stream-data counter at the moment the round opened.
    pub burst_start_offset: u64,
    /// Bytes in the burst that triggered the round.
    pub burst_size: u64,
    /// Ceiling on cumulative repair bytes this round may authorize; it
    /// grows monotonically while the round lasts.
    pub repair_bytes_to_send: u64,
    /// Repair symbols already authorized against the ceiling.
    pub repair_symbols_sent: u64,
}

pub struct BurstsFECScheduler {
    pub n_repair_in_flight: u64,
    pub n_packets_sent_when_nothing_to_send: u64,
    pub n_sent_stream_bytes_when_nothing_to_send: u64,
    pub n_sent_stream_bytes_when_last_repair: u64,
    pub current_burst_size: u64,
    pub earliest_unprotected_source_symbol_sent_time: Option<u64>,
    pub n_source_symbols_sent_since_last_repair: u64,
    pub state_sending_repair: Option<SendingState>,
    pub next_timeout: Option<u64>,
}

/// The initial state: no history, no round.
pub open spec fn bursts_initial_state() -> BurstsFECScheduler {
    BurstsFECScheduler {
        n_repair_in_flight: 0,
        n_packets_sent_when_nothing_to_send: 0,
        n_sent_stream_bytes_when_nothing_to_send: 0,
        n_sent_stream_bytes_when_last_repair: 0,
        current_burst_size: 0,
        earliest_unprotected_source_symbol_sent_time: None,
        n_source_symbols_sent_since_last_repair: 0,
        state_sending_repair: None,
        next_timeout: None,
    }
}

/// One decision of the burst-protecting policy over an arbitrary base
/// quantity `base` (the bytes in flight the budget is carved from): the
/// state after the query and the decision it returns.
///
/// The steps, in order: an exhausted round is cleared; a round may open at
/// an idle point behind a large enough finished burst; a stale round
/// expires; a live round's ceiling is re-derived and only ever raised;
/// idle-point counters are rebased; emission is authorized when the live
/// round's delay has passed and its ceiling is not yet met.
pub open spec fn bursts_query_step(
    s: BurstsFECScheduler,
    conn: ConnectionView,
    path: PathView,
    symbol_size: usize,
    now: u64,
    params: FECSchedulerParams,
    base: int,
) -> (BurstsFECScheduler, bool) {
    let ss = symbol_size as int;
    let idle = nothing_to_send(conn);
    let cbs = conn.tx_data.saturating_sub(s.n_sent_stream_bytes_when_nothing_to_send);
    let round0 = match s.state_sending_repair {
        Some(r) => if r.repair_symbols_sent * ss >= r.repair_bytes_to_send {
            None
        } else {
            Some(r)
        },
        None => None,
    };
    let jitter_ok = match s.earliest_unprotected_source_symbol_sent_time {
        None => true,
        Some(t) => now > t + params.max_jitter_us,
    };
    let opens = round0 is None && idle && cbs > params.burst_size_bytes && jitter_ok;
    let round1 = if opens {
        Some(
            SendingState {
                start_time: now.saturating_add(params.max_jitter_us),
                when: now.saturating_add(params.max_jitter_us),
                burst_start_offset: conn.tx_data,
                burst_size: cbs,
                repair_bytes_to_send: 0,
                repair_symbols_sent: 0,
            },
        )
    } else {
        match round0 {
            Some(r) => if now - r.start_time >= path.rtt_us {
                None
            } else {
                Some(r)
            },
            None => None,
        }
    };
    let round2 = match round1 {
        Some(r) => {
            let btp = imin(base, s.n_source_symbols_sent_since_last_repair * ss);
            let cand0 = protection_budget(btp, params.frac_denominator_to_protect as int);
            let cand = match path.packets_lost_per_round_trip {
                None => cand0,
                Some(m) => imin((m + 2 * path.var_packets_lost_per_round_trip_ceil) * ss, cand0),
            };
            Some(
                SendingState {
                    repair_bytes_to_send: clamp_u64(imax(r.repair_bytes_to_send as int, cand)),
                    ..r
                },
            )
        },
        None => None,
    };
    let emits = match round2 {
        Some(r) => now >= r.when && r.repair_symbols_sent * ss < r.repair_bytes_to_send,
        None => false,
    };
    (
        BurstsFECScheduler {
            n_repair_in_flight: s.n_repair_in_flight,
            n_packets_sent_when_nothing_to_send: if idle {
                conn.sent_count
            } else {
                s.n_packets_sent_when_nothing_to_send
            },
            n_sent_stream_bytes_when_nothing_to_send: if idle {
                conn.tx_data
            } else {
                s.n_sent_stream_bytes_when_nothing_to_send
            },
            n_sent_stream_bytes_when_last_repair: if emits {
                conn.tx_data
            } else {
                s.n_sent_stream_bytes_when_last_repair
            },
            current_burst_size: if idle {
                0
            } else {
                cbs
            },
            earliest_unprotected_source_symbol_sent_time:
                s.earliest_unprotected_source_symbol_sent_time,
            n_source_symbols_sent_since_last_repair: s.n_source_symbols_sent_since_last_repair,
            state_sending_repair: round2,
            next_timeout: match round2 {
                Some(r) => if !emits && now < r.when {
                    Some(r.when)
                } else {
                    None
                },
                None => None,
            },
        },
        emits,
    )
}

/// Recording one emitted source symbol.  A fresh large burst arms the
/// jitter gate; an already armed gate is re-armed by a newer large burst,
/// or caught up to the encoder's earliest protected symbol when the coding
/// window slid forward without any repair being emitted.
pub open spec fn bursts_sent_source_step(
    s: BurstsFECScheduler,
    enc: EncoderView,
    now: u64,
    params: FECSchedulerParams,
) -> BurstsFECScheduler {
    let armed = match s.earliest_unprotected_source_symbol_sent_time {
        None => if s.current_burst_size > params.burst_size_bytes {
            Some(now)
        } else {
            None
        },
        Some(t) => if now > t + params.max_jitter_us && s.current_burst_size
            > params.burst_size_bytes {
            Some(now)
        } else {
            match (enc.first_metadata, enc.first_metadata_sent_time) {
                (Some(_), Some(st)) => if st > t {
                    Some(st)
                } else {
                    Some(t)
                },
                _ => Some(t),
            }
        },
    };
    BurstsFECScheduler {
        earliest_unprotected_source_symbol_sent_time: armed,
        n_source_symbols_sent_since_last_repair: s.n_source_symbols_sent_since_last_repair
            .saturating_add(1),
        ..s
    }
}

/// Recording one emitted repair symbol.
pub open spec fn bursts_sent_repair_step(s: BurstsFECScheduler) -> BurstsFECScheduler {
    BurstsFECScheduler {
        n_repair_in_flight: (s.n_repair_in_flight + 1) as u64,
        earliest_unprotected_source_symbol_sent_time: None,
        n_source_symbols_sent_since_last_repair: 0,
        state_sending_repair: match s.state_sending_repair {
            Some(r) => Some(
                SendingState { repair_symbols_sent: r.repair_symbols_sent.saturating_add(1), ..r },
            ),
            None => None,
        },
        ..s
    }
}

/// Recording one acknowledged or lost repair symbol.
pub open spec fn bursts_acked_step(s: BurstsFECScheduler) -> BurstsFECScheduler {
    BurstsFECScheduler { n_repair_in_flight: (s.n_repair_in_flight - 1) as u64, ..s }
}

impl BurstsFECScheduler {
    pub fn new() -> (s: BurstsFECScheduler)
        ensures
            s == bursts_initial_state(),
    {
        BurstsFECScheduler {
            n_repair_in_flight: 0,
            n_packets_sent_when_nothing_to_send: 0,
            n_sent_stream_bytes_when_nothing_to_send: 0,
            n_sent_stream_bytes_when_last_repair: 0,
            current_burst_size: 0,
            earliest_unprotected_source_symbol_sent_time: None,
            n_source_symbols_sent_since_last_repair: 0,
            state_sending_repair: None,
            next_timeout: None,
        }
    }

    /// The decision over an explicit base quantity.  Policies derive the
    /// base from the calling path or from the whole connection before
    /// delegating here.
    pub(crate) fn query_with_base(
        &mut self,
        conn: &ConnectionView,
        path: &PathView,
        symbol_size: usize,
        now: u64,
        params: &FECSchedulerParams,
        base: u128,
    ) -> (r: bool)
        requires
            params.wf(),
        ensures
            ({
                let (s2, r2) = bursts_query_step(
                    *old(self),
                    *conn,
                    *path,
                    symbol_size,
                    now,
                    *params,
                    base as int,
                );
                *final(self) == s2 && r == r2
            }),
    {
        let ss: u128 = symbol_size as u128;
        proof {
            assert(symbol_size as int <= u64::MAX as int);
        }
        let idle = !conn.has_writable_datagram && !conn.has_flushable_stream;
        let cbs: u64 = conn.tx_data.saturating_sub(self.n_sent_stream_bytes_when_nothing_to_send);
        let round0: Option<SendingState> = match self.state_sending_repair {
            Some(r) => {
                proof {
                    lemma_u64_mul_fits_u128(r.repair_symbols_sent as int, ss as int);
                }
                if (r.repair_symbols_sent as u128) * ss >= (r.repair_bytes_to_send as u128) {
                    None
                } else {
                    Some(r)
                }
            },
            None => None,
        };
        let jitter_ok = match self.earliest_unprotected_source_symbol_sent_time {
            None => true,
            Some(t) => (now as u128) > (t as u128) + (params.max_jitter_us as u128),
        };
        let opens = round0.is_none() && idle && cbs > params.burst_size_bytes && jitter_ok;
        let round1: Option<SendingState> = if opens {
            let scheduled = now.saturating_add(params.max_jitter_us);
            Some(
                SendingState {
                    start_time: scheduled,
                    when: scheduled,
                    burst_start_offset: conn.tx_data,
                    burst_size: cbs,
                    repair_bytes_to_send: 0,
                    repair_symbols_sent: 0,
                },
            )
        } else {
            match round0 {
                Some(r) => {
                    if (now as u128) >= (r.start_time as u128) + (path.rtt_us as u128) {
                        None
                    } else {
                        Some(r)
                    }
                },
                None => None,
            }
        };
        let round2: Option<SendingState> = match round1 {
            Some(r) => {
                proof {
                    lemma_u64_mul_fits_u128(
                        self.n_source_symbols_sent_since_last_repair as int,
                        ss as int,
                    );
                }
                let btp = min_u128(
                    base,
                    (self.n_source_symbols_sent_since_last_repair as u128) * ss,
                );
                let cand0 = protection_budget_u128(btp, params.frac_denominator_to_protect);
                let cand: u128 = match path.packets_lost_per_round_trip {
                    None => cand0,
                    Some(m) => {
                        let spread: u128 = (m as u128)
                            + 2 * (path.var_packets_lost_per_round_trip_ceil as u128);
                        min_u128(sat_mul_u128(spread, ss), cand0)
                    },
                };
                let grown: u128 = if cand > (r.repair_bytes_to_send as u128) {
                    cand
                } else {
                    r.repair_bytes_to_send as u128
                };
                let raised: u64 = if grown > (u64::MAX as u128) {
                    u64::MAX
                } else {
                    grown as u64
                };
                Some(SendingState { repair_bytes_to_send: raised, ..r })
            },
            None => None,
        };
        if idle {
            self.n_packets_sent_when_nothing_to_send = conn.sent_count;
            self.n_sent_stream_bytes_when_nothing_to_send = conn.tx_data;
            self.current_burst_size = 0;
        } else {
            self.current_burst_size = cbs;
        }
        let emit = match round2 {
            Some(r) => {
                proof {
                    lemma_u64_mul_fits_u128(r.repair_symbols_sent as int, ss as int);
                }
                now >= r.when && (r.repair_symbols_sent as u128) * ss
                    < (r.repair_bytes_to_send as u128)
            },
            None => false,
        };
        if emit {
            self.n_sent_stream_bytes_when_last_repair = conn.tx_data;
        }
        self.next_timeout = match round2 {
            Some(r) => if !emit && now < r.when {
                Some(r.when)
            } else {
                None
            },
            None => None,
        };
        self.state_sending_repair = round2;
        emit
    }

    /// Decide whether the next packet on `path` should carry a repair
    /// symbol.  The budget base is the calling path's bytes in flight.
    /// `now` is the caller's reading of a monotonic microsecond clock;
    /// `params` holds the tunables resolved for this decision.
    pub fn should_send_repair(
        &mut self,
        conn: &ConnectionView,
        path: &PathView,
        symbol_size: usize,
        now: u64,
        params: &FECSchedulerParams,
    ) -> (r: bool)
        requires
            params.wf(),
        ensures
            ({
                let (s2, r2) = bursts_query_step(
                    *old(self),
                    *conn,
                    *path,
                    symbol_size,
                    now,
                    *params,
                    path_bif(*path),
                );
                *final(self) == s2 && r == r2
            }),
    {
        let base = bif_of_path(path) as u128;
        self.query_with_base(conn, path, symbol_size, now, params, base)
    }

    /// Record the emission of one source symbol.
    pub fn sent_source_symbol(
        &mut self,
        encoder: &EncoderView,
        now: u64,
        params: &FECSchedulerParams,
    )
        ensures
            *final(self) == bursts_sent_source_step(*old(self), *encoder, now, *params),
    {
        match self.earliest_unprotected_source_symbol_sent_time {
            None => {
                if self.current_burst_size > params.burst_size_bytes {
                    self.earliest_unprotected_source_symbol_sent_time = Some(now);
                }
            },
            Some(t) => {
                let fresh_burst = (now as u128) > (t as u128) + (params.max_jitter_us as u128)
                    && self.current_burst_size > params.burst_size_bytes;
                if fresh_burst {
                    self.earliest_unprotected_source_symbol_sent_time = Some(now);
                } else {
                    match (encoder.first_metadata, encoder.first_metadata_sent_time) {
                        (Some(_), Some(st)) => {
                            if st > t {
                                self.earliest_unprotected_source_symbol_sent_time = Some(st);
                            }
                        },
                        _ => {},
                    }
                }
            },
        }
        self.n_source_symbols_sent_since_last_repair = self
            .n_source_symbols_sent_since_last_repair
            .saturating_add(1);
    }

    /// Record the emission of one repair symbol.
    pub fn sent_repair_symbol(&mut self, _encoder: &EncoderView)
        requires
            old(self).n_repair_in_flight < u64::MAX,
        ensures
            *final(self) == bursts_sent_repair_step(*old(self)),
    {
        self.n_repair_in_flight = self.n_repair_in_flight + 1;
        self.earliest_unprotected_source_symbol_sent_time = None;
        self.n_source_symbols_sent_since_last_repair = 0;
        match &mut self.state_sending_repair {
            Some(r) => {
                r.repair_symbols_sent = r.repair_symbols_sent.saturating_add(1);
            },
            None => {},
        }
    }

    /// Record the acknowledgement of one repair symbol.  The caller must
    /// pair each emission with exactly one acknowledgement or loss.
    pub fn acked_repair_symbol(&mut self, _encoder: &EncoderView)
        requires
            old(self).n_repair_in_flight > 0,
        ensures
            *final(self) == bursts_acked_step(*old(self)),
    {
        self.n_repair_in_flight = self.n_repair_in_flight - 1;
    }

    /// Record the loss of one repair symbol; it releases the in-flight
    /// slot exactly as an acknowledgement does.
    pub fn lost_repair_symbol(&mut self, encoder: &EncoderView)
        requires
            old(self).n_repair_in_flight > 0,
        ensures
            *final(self) == bursts_acked_step(*old(self)),
    {
        self.acked_repair_symbol(encoder)
    }

    /// The next instant at which the pending round could first emit.
    pub fn timeout(&self) -> (r: Option<u64>)
        ensures
            r == self.next_timeout,
    {
        self.next_timeout
    }
}

/// After any decision, a live round's authorized repair stays within its
/// ceiling: `0 <= repair_symbols_sent * symbol_size <= repair_bytes_to_send`.
pub proof fn lemma_bursts_round_within_ceiling(
    s: BurstsFECScheduler,
    conn: ConnectionView,
    path: PathView,
    symbol_size: usize,
    now: u64,
    params: FECSchedulerParams,
    base: int,
)
    ensures
        ({
            let s2 = bursts_query_step(s, conn, path, symbol_size, now, params, base).0;
            match s2.state_sending_repair {
                Some(r) => 0 <= r.repair_symbols_sent * symbol_size <= r.repair_bytes_to_send,
                None => true,
            }
        }),
{
}

/// A round never survives a decision made at or after one round-trip time
/// past its start: any round live after the query either was opened by it
/// (its start lies at or beyond `now`) or is younger than the path's RTT.
pub proof fn lemma_bursts_round_lifetime(
    s: BurstsFECScheduler,
    conn: ConnectionView,
    path: PathView,
    symbol_size: usize,
    now: u64,
    params: FECSchedulerParams,
    base: int,
)
    ensures
        ({
            let s2 = bursts_query_step(s, conn, path, symbol_size, now, params, base).0;
            match s2.state_sending_repair {
                Some(r) => now - r.start_time < path.rtt_us || r.start_time >= now,
                None => true,
            }
        }),
{
}

/// While a single round lasts, its byte ceiling never shrinks.
pub proof fn lemma_bursts_ceiling_monotonic(
    s: BurstsFECScheduler,
    conn: ConnectionView,
    path: PathView,
    symbol_size: usize,
    now: u64,
    params: FECSchedulerParams,
    base: int,
)
    requires
        ({
            match s.state_sending_repair {
                Some(r) => r.repair_symbols_sent * symbol_size < r.repair_bytes_to_send && now
                    - r.start_time < path.rtt_us,
                None => false,
            }
        }),
    ensures
        ({
            let s2 = bursts_query_step(s, conn, path, symbol_size, now, params, base).0;
            match (s.state_sending_repair, s2.state_sending_repair) {
                (Some(r0), Some(r1)) => r1.start_time == r0.start_time && r1.when == r0.when
                    && r1.repair_bytes_to_send >= r0.repair_bytes_to_send,
                _ => false,
            }
        }),
{
}

/// With no round pending, the policy never asks for repair while the
/// connection still has datagrams or stream data to send.  (A round
/// already open may still finish emitting its authorized repair after new
/// traffic has appeared.)
pub proof fn lemma_bursts_declines_when_traffic(
    s: BurstsFECScheduler,
    conn: ConnectionView,
    path: PathView,
    symbol_size: usize,
    now: u64,
    params: FECSchedulerParams,
    base: int,
)
    requires
        s.state_sending_repair is None,
        conn.has_flushable_stream || conn.has_writable_datagram,
    ensures
        !bursts_query_step(s, conn, path, symbol_size, now, params, base).1,
{
}

/// Querying twice with the same clock reading and the same inputs never
/// turns a negative decision into a positive one.
pub proof fn lemma_bursts_query_stable(
    s: BurstsFECScheduler,
    conn: ConnectionView,
    path: PathView,
    symbol_size: usize,
    now: u64,
    params: FECSchedulerParams,
    base: int,
)
    ensures
        ({
            let (s1, r1) = bursts_query_step(s, conn, path, symbol_size, now, params, base);
            let (s2, r2) = bursts_query_step(s1, conn, path, symbol_size, now, params, base);
            !r1 ==> !r2
        }),
{
}

/// One emission followed by its acknowledgement (or loss) leaves the
/// number of repair symbols in flight unchanged.
pub proof fn lemma_bursts_emit_ack_balance(s: BurstsFECScheduler)
    requires
        s.n_repair_in_flight < u64::MAX,
    ensures
        bursts_acked_step(bursts_sent_repair_step(s)).n_repair_in_flight == s.n_repair_in_flight,
{
}

/// A stored wake-up instant always lies strictly in the future of the
/// decision that stored it.
pub proof fn lemma_bursts_timeout_in_future(
    s: BurstsFECScheduler,
    conn: ConnectionView,
    path: PathView,
    symbol_size: usize,
    now: u64,
    params: FECSchedulerParams,
    base: int,
)
    ensures
        ({
            let s2 = bursts_query_step(s, conn, path, symbol_size, now, params, base).0;
            match s2.next_timeout {
                Some(t) => t > now,
                None => true,
            }
        }),
{
}

} // verus!
