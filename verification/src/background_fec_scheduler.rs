//! The background policy: fill idle air-time with repair symbols.
//!
//! While the connection has nothing to send, repair may be emitted up to a
//! budget derived from the bytes in flight and the protected window.  The
//! first query at which the budget allows emission only latches a
//! triggering time; emission is authorized once a configurable delay has
//! passed since that latch, so that a brief burst-loss event can subside
//! and a single repair block can cover the whole loss pattern.

use vstd::prelude::*;

use crate::numeric::imin;
use crate::numeric::min_u128;
use crate::numeric::sat_mul_u128;
use crate::params::FECSchedulerParams;
use crate::views::lemma_total_non_fec_bif_bound;
use crate::views::nothing_to_send;
use crate::views::total_non_fec_bif;
use crate::views::total_non_fec_bif_of;
use crate::views::ConnectionView;
use crate::views::EncoderView;
use crate::views::PathView;

verus! {

/// With no loss estimation, allow enough repair to cover this many lost
/// packets per round trip.
pub const REPAIR_TO_SEND_WITH_NO_LOSS_INFO: u64 = 5;

pub struct BackgroundFECScheduler {
    pub delaying_duration_us: u64,
    pub n_repair_in_flight: u64,
    pub rs_triggering_time: Option<u64>,
    pub rs_sent_for_this_round: bool,
}

/// The base quantity the budget is carved from: the bytes in flight over
/// the non-repair paths, capped by the bytes the coding window protects.
pub open spec fn background_base(conn: ConnectionView, symbol_size: usize) -> int {
    imin(
        conn.fec_encoder.n_protected_symbols * symbol_size,
        total_non_fec_bif_of(conn.paths@),
    )
}

/// The budget in bytes of unacknowledged repair the policy may keep in
/// flight.  Below one symbol nothing is sent; small windows are protected
/// at three fifths; large windows at a loss-derived cap, or a five-symbol
/// default when no loss statistics exist.
pub open spec fn background_budget(conn: ConnectionView, path: PathView, symbol_size: usize) -> int {
    let ss = symbol_size as int;
    let tb = background_base(conn, symbol_size);
    if tb < ss {
        0
    } else if tb < 15000 {
        tb * 3 / 5
    } else {
        match path.packets_lost_per_round_trip {
            None => imin(REPAIR_TO_SEND_WITH_NO_LOSS_INFO * ss, tb / 4),
            Some(m) => imin((m + 2 * path.var_packets_lost_per_round_trip_ceil) * ss, tb / 3),
        }
    }
}

/// A repair symbol is called for: the connection is idle and the repair in
/// flight is below the budget.
pub open spec fn background_required(
    s: BackgroundFECScheduler,
    conn: ConnectionView,
    path: PathView,
    symbol_size: usize,
) -> bool {
    nothing_to_send(conn) && s.n_repair_in_flight * symbol_size
        < background_budget(conn, path, symbol_size)
}

/// One decision of the background policy: the state after the query and
/// the decision it returns.
pub open spec fn background_query_step(
    s: BackgroundFECScheduler,
    conn: ConnectionView,
    path: PathView,
    symbol_size: usize,
    now: u64,
    params: FECSchedulerParams,
) -> (BackgroundFECScheduler, bool) {
    let s1 = BackgroundFECScheduler {
        delaying_duration_us: params.background_delaying_duration_us,
        ..s
    };
    if !background_required(s, conn, path, symbol_size) {
        (
            BackgroundFECScheduler {
                rs_triggering_time: None,
                rs_sent_for_this_round: false,
                ..s1
            },
            false,
        )
    } else {
        match s.rs_triggering_time {
            None => (
                BackgroundFECScheduler {
                    rs_triggering_time: Some(now),
                    rs_sent_for_this_round: false,
                    ..s1
                },
                params.background_delaying_duration_us == 0,
            ),
            Some(t) => (s1, now >= t + params.background_delaying_duration_us),
        }
    }
}

/// Recording one emitted repair symbol.
pub open spec fn background_sent_repair_step(s: BackgroundFECScheduler) -> BackgroundFECScheduler {
    BackgroundFECScheduler {
        n_repair_in_flight: (s.n_repair_in_flight + 1) as u64,
        rs_sent_for_this_round: true,
        ..s
    }
}

/// Recording one acknowledged or lost repair symbol: either way the symbol
/// leaves the in-flight count.
pub open spec fn background_acked_step(s: BackgroundFECScheduler) -> BackgroundFECScheduler {
    BackgroundFECScheduler { n_repair_in_flight: (s.n_repair_in_flight - 1) as u64, ..s }
}

/// Recording one emitted source symbol: new data opens a new round, so the
/// delay machinery is reset.
pub open spec fn background_sent_source_step(s: BackgroundFECScheduler) -> BackgroundFECScheduler {
    BackgroundFECScheduler { rs_triggering_time: None, rs_sent_for_this_round: false, ..s }
}

/// The next instant at which a pending, not yet served round could emit.
pub open spec fn background_timeout_spec(s: BackgroundFECScheduler) -> Option<u64> {
    if s.rs_sent_for_this_round {
        None
    } else {
        match s.rs_triggering_time {
            None => None,
            Some(t) => Some(t.saturating_add(s.delaying_duration_us)),
        }
    }
}

impl BackgroundFECScheduler {
    pub fn new() -> (s: BackgroundFECScheduler)
        ensures
            s == (BackgroundFECScheduler {
                delaying_duration_us: crate::params::DEFAULT_DELAYING_DURATION_US,
                n_repair_in_flight: 0,
                rs_triggering_time: None,
                rs_sent_for_this_round: false,
            }),
    {
        BackgroundFECScheduler {
            delaying_duration_us: crate::params::DEFAULT_DELAYING_DURATION_US,
            n_repair_in_flight: 0,
            rs_triggering_time: None,
            rs_sent_for_this_round: false,
        }
    }

    fn reset_rs_delaying(&mut self)
        ensures
            *final(self) == (BackgroundFECScheduler {
                rs_triggering_time: None,
                rs_sent_for_this_round: false,
                ..*old(self)
            }),
    {
        self.rs_triggering_time = None;
        self.rs_sent_for_this_round = false;
    }

    /// Decide whether the next packet on `path` should carry a repair
    /// symbol.  `now` is the caller's reading of a monotonic microsecond
    /// clock; `params` holds the tunables resolved for this decision.
    pub fn should_send_repair(
        &mut self,
        conn: &ConnectionView,
        path: &PathView,
        symbol_size: usize,
        now: u64,
        params: &FECSchedulerParams,
    ) -> (r: bool)
        ensures
            ({
                let (s2, r2) = background_query_step(
                    *old(self),
                    *conn,
                    *path,
                    symbol_size,
                    now,
                    *params,
                );
                *final(self) == s2 && r == r2
            }),
    {
        self.delaying_duration_us = params.background_delaying_duration_us;
        let ss: u128 = symbol_size as u128;
        let total = total_non_fec_bif(conn);
        let nprot: u128 = conn.fec_encoder.n_protected_symbols as u128;
        let npaths = conn.paths.len();
        proof {
            assert(symbol_size as int <= u64::MAX as int);
            assert(npaths as int <= u64::MAX as int);
            lemma_total_non_fec_bif_bound(conn.paths@);
            assert((u64::MAX as int) * (u64::MAX as int) < u128::MAX as int) by (nonlinear_arith);
            assert(nprot * ss <= (u64::MAX as int) * (u64::MAX as int)) by (nonlinear_arith)
                requires
                    0 <= nprot <= u64::MAX as int,
                    0 <= ss <= u64::MAX as int,
            ;
            assert(conn.paths@.len() * (u64::MAX as int) <= (u64::MAX as int) * (u64::MAX as int))
                by (nonlinear_arith)
                requires
                    0 <= conn.paths@.len() <= u64::MAX as int,
            ;
            assert(REPAIR_TO_SEND_WITH_NO_LOSS_INFO * ss <= u128::MAX as int) by (nonlinear_arith)
                requires
                    0 <= ss <= u64::MAX as int,
            ;
        }
        let tb = min_u128(nprot * ss, total);
        let max_repair_data: u128 = if tb < ss {
            0
        } else if tb < 15000 {
            tb * 3 / 5
        } else {
            match path.packets_lost_per_round_trip {
                None => min_u128((REPAIR_TO_SEND_WITH_NO_LOSS_INFO as u128) * ss, tb / 4),
                Some(m) => {
                    let spread: u128 = (m as u128)
                        + 2 * (path.var_packets_lost_per_round_trip_ceil as u128);
                    let est = sat_mul_u128(spread, ss);
                    min_u128(est, tb / 3)
                },
            }
        };
        proof {
            assert(max_repair_data == background_budget(*conn, *path, symbol_size));
        }
        proof {
            assert((self.n_repair_in_flight as int) * ss
                <= (u64::MAX as int) * (u64::MAX as int)) by (nonlinear_arith)
                requires
                    0 <= self.n_repair_in_flight as int <= u64::MAX as int,
                    0 <= ss <= u64::MAX as int,
            ;
        }
        let gate = (self.n_repair_in_flight as u128) * ss < max_repair_data;
        let required = !conn.has_writable_datagram && !conn.has_flushable_stream && gate;
        if !required {
            self.reset_rs_delaying();
            false
        } else {
            if self.rs_triggering_time.is_none() {
                self.rs_triggering_time = Some(now);
                self.rs_sent_for_this_round = false;
            }
            let trig: u64 = match self.rs_triggering_time {
                Some(t) => t,
                None => now,
            };
            (now as u128) >= (trig as u128) + (params.background_delaying_duration_us as u128)
        }
    }

    /// Record the emission of one repair symbol.
    pub fn sent_repair_symbol(&mut self, _encoder: &EncoderView)
        requires
            old(self).n_repair_in_flight < u64::MAX,
        ensures
            *final(self) == background_sent_repair_step(*old(self)),
    {
        self.n_repair_in_flight = self.n_repair_in_flight + 1;
        self.rs_sent_for_this_round = true;
    }

    /// Record the acknowledgement of one repair symbol.  The caller must
    /// pair each emission with exactly one acknowledgement or loss.
    pub fn acked_repair_symbol(&mut self, _encoder: &EncoderView)
        requires
            old(self).n_repair_in_flight > 0,
        ensures
            *final(self) == background_acked_step(*old(self)),
    {
        self.n_repair_in_flight = self.n_repair_in_flight - 1;
    }

    /// Record the emission of one source symbol: the current round closes.
    pub fn sent_source_symbol(&mut self, _encoder: &EncoderView)
        ensures
            *final(self) == background_sent_source_step(*old(self)),
    {
        self.reset_rs_delaying();
    }

    /// Record the loss of one repair symbol; it releases the in-flight
    /// slot exactly as an acknowledgement does.
    pub fn lost_repair_symbol(&mut self, encoder: &EncoderView)
        requires
            old(self).n_repair_in_flight > 0,
        ensures
            *final(self) == background_acked_step(*old(self)),
    {
        self.acked_repair_symbol(encoder)
    }

    /// The instant at which the pending round could first emit, if a round
    /// is pending and has not emitted yet.
    pub fn timeout(&self) -> (r: Option<u64>)
        ensures
            r == background_timeout_spec(*self),
    {
        if self.rs_sent_for_this_round {
            None
        } else {
            match self.rs_triggering_time {
                Some(t) => Some(t.saturating_add(self.delaying_duration_us)),
                None => None,
            }
        }
    }
}

/// The background policy never asks for repair while the connection still
/// has datagrams or stream data to send.
pub proof fn lemma_background_declines_when_traffic(
    s: BackgroundFECScheduler,
    conn: ConnectionView,
    path: PathView,
    symbol_size: usize,
    now: u64,
    params: FECSchedulerParams,
)
    requires
        conn.has_flushable_stream || conn.has_writable_datagram,
    ensures
        !background_query_step(s, conn, path, symbol_size, now, params).1,
{
}

/// Querying twice with the same clock reading and the same inputs never
/// turns a negative decision into a positive one.
pub proof fn lemma_background_query_stable(
    s: BackgroundFECScheduler,
    conn: ConnectionView,
    path: PathView,
    symbol_size: usize,
    now: u64,
    params: FECSchedulerParams,
)
    ensures
        ({
            let (s1, r1) = background_query_step(s, conn, path, symbol_size, now, params);
            let (s2, r2) = background_query_step(s1, conn, path, symbol_size, now, params);
            !r1 ==> !r2
        }),
{
}

/// One emission followed by its acknowledgement (or loss) leaves the
/// number of repair symbols in flight unchanged.
pub proof fn lemma_background_emit_ack_balance(s: BackgroundFECScheduler)
    requires
        s.n_repair_in_flight < u64::MAX,
    ensures
        background_acked_step(background_sent_repair_step(s)).n_repair_in_flight
            == s.n_repair_in_flight,
{
}

} // verus!
