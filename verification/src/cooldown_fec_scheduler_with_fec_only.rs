//! The cooldown policy on a repair-only path.
//!
//! Epoch-driven: a sending round is tied to the coding window it was
//! armed for, identified by the encoder's earliest protected metadata; a
//! change of that metadata invalidates the round.  A round arms at an
//! idle point once the window protects enough data, congestion-window
//! headroom remains, and a cooldown since the earliest source symbol of
//! the burst has elapsed.  Independently, repair doubles as a bandwidth
//! probe while the path is app-limited and measured goodput lies below a
//! configured target.

use vstd::prelude::*;

use crate::numeric::lemma_u64_mul_fits_u128;
use crate::numeric::sat_mul_u128;
use crate::params::FECSchedulerParams;
use crate::views::nothing_to_send;
use crate::views::protection_budget;
use crate::views::protection_budget_u128;
use crate::views::total_non_fec_bif;
use crate::views::total_non_fec_bif_of;
use crate::views::ConnectionView;
use crate::views::EncoderView;
use crate::views::PathView;

verus! {

/// One armed sending round, valid for a single coding epoch.
#[derive(Clone, Copy, Debug)]
pub struct SendingState {
    /// The encoder's earliest protected metadata when the round armed.
    pub first_protected_metadata_for_epoch: Option<u64>,
}

pub struct CooldownFECSchedulerWithFECOnly {
    pub n_repair_in_flight: u64,
    pub n_packets_sent_when_nothing_to_send: u64,
    pub n_bytes_sent_when_nothing_to_send: u64,
    pub first_source_symbol_in_burst_sent_time: Option<u64>,
    pub state_sending_repair: Option<SendingState>,
}

/// The probing branch: the path is app-limited and the measured goodput,
/// eight bits per in-flight byte per round-trip second, lies below the
/// configured target.
pub open spec fn cooldown_should_probe(
    conn: ConnectionView,
    path: PathView,
    params: FECSchedulerParams,
) -> bool {
    path.app_limited && 8 * total_non_fec_bif_of(conn.paths@) * 1000000
        < params.bandwidth_probing_bps * path.rtt_us
}

/// The budget in bytes of unacknowledged repair the policy may keep in
/// flight, carved from the bytes in flight over the data paths.
pub open spec fn cooldown_budget(conn: ConnectionView, params: FECSchedulerParams) -> int {
    protection_budget(total_non_fec_bif_of(conn.paths@), params.frac_denominator_to_protect as int)
}

/// One decision of the cooldown policy: the state after the query and the
/// decision it returns.
pub open spec fn cooldown_query_step(
    s: CooldownFECSchedulerWithFECOnly,
    conn: ConnectionView,
    path: PathView,
    symbol_size: usize,
    now: u64,
    params: FECSchedulerParams,
) -> (CooldownFECSchedulerWithFECOnly, bool) {
    if !path.fec_only {
        (s, false)
    } else {
        let round0 = match s.state_sending_repair {
            Some(st) => if conn.fec_encoder.first_metadata != st.first_protected_metadata_for_epoch {
                None
            } else {
                Some(st)
            },
            None => None,
        };
        let idle = nothing_to_send(conn);
        let sent_enough = conn.fec_encoder.n_protected_symbols * symbol_size
            > params.burst_size_bytes;
        let enough_room = path.cwnd_available > params.minimum_room_in_cwin;
        let cooldown_ok = match s.first_source_symbol_in_burst_sent_time {
            None => true,
            Some(t) => now > t + params.fec_cooldown_us,
        };
        let round1 = if round0 is None && idle && sent_enough && enough_room && cooldown_ok {
            Some(SendingState { first_protected_metadata_for_epoch: conn.fec_encoder.first_metadata })
        } else {
            round0
        };
        let decision = cooldown_should_probe(conn, path, params) || (enough_room
            && s.n_repair_in_flight * symbol_size < cooldown_budget(conn, params));
        (
            CooldownFECSchedulerWithFECOnly {
                n_packets_sent_when_nothing_to_send: if idle {
                    conn.sent_count
                } else {
                    s.n_packets_sent_when_nothing_to_send
                },
                n_bytes_sent_when_nothing_to_send: if idle {
                    conn.sent_bytes
                } else {
                    s.n_bytes_sent_when_nothing_to_send
                },
                state_sending_repair: round1,
                ..s
            },
            decision,
        )
    }
}

/// Recording one emitted repair symbol.
pub open spec fn cooldown_sent_repair_step(
    s: CooldownFECSchedulerWithFECOnly,
) -> CooldownFECSchedulerWithFECOnly {
    CooldownFECSchedulerWithFECOnly {
        n_repair_in_flight: (s.n_repair_in_flight + 1) as u64,
        first_source_symbol_in_burst_sent_time: None,
        ..s
    }
}

/// Recording one acknowledged or lost repair symbol.
pub open spec fn cooldown_acked_step(
    s: CooldownFECSchedulerWithFECOnly,
) -> CooldownFECSchedulerWithFECOnly {
    CooldownFECSchedulerWithFECOnly {
        n_repair_in_flight: (s.n_repair_in_flight - 1) as u64,
        ..s
    }
}

/// Recording one emitted source symbol: the first of a burst stamps the
/// cooldown clock.
pub open spec fn cooldown_sent_source_step(
    s: CooldownFECSchedulerWithFECOnly,
    now: u64,
) -> CooldownFECSchedulerWithFECOnly {
    match s.first_source_symbol_in_burst_sent_time {
        None => CooldownFECSchedulerWithFECOnly {
            first_source_symbol_in_burst_sent_time: Some(now),
            ..s
        },
        Some(_) => s,
    }
}

impl CooldownFECSchedulerWithFECOnly {
    pub fn new() -> (s: CooldownFECSchedulerWithFECOnly)
        ensures
            s == (CooldownFECSchedulerWithFECOnly {
                n_repair_in_flight: 0,
                n_packets_sent_when_nothing_to_send: 0,
                n_bytes_sent_when_nothing_to_send: 0,
                first_source_symbol_in_burst_sent_time: None,
                state_sending_repair: None,
            }),
    {
        CooldownFECSchedulerWithFECOnly {
            n_repair_in_flight: 0,
            n_packets_sent_when_nothing_to_send: 0,
            n_bytes_sent_when_nothing_to_send: 0,
            first_source_symbol_in_burst_sent_time: None,
            state_sending_repair: None,
        }
    }

    /// Decide whether the next packet on `path` should carry a repair
    /// symbol.  Declines on any path not dedicated to repair traffic.
    pub fn should_send_repair(
        &mut self,
        conn: &ConnectionView,
        path: &PathView,
        symbol_size: usize,
        now: u64,
        params: &FECSchedulerParams,
    ) -> (r: bool)
        requires
            params.wf(),
        ensures
            ({
                let (s2, r2) = cooldown_query_step(
                    *old(self),
                    *conn,
                    *path,
                    symbol_size,
                    now,
                    *params,
                );
                *final(self) == s2 && r == r2
            }),
    {
        if !path.fec_only {
            return false;
        }
        let ss: u128 = symbol_size as u128;
        proof {
            assert(symbol_size as int <= u64::MAX as int);
        }
        match self.state_sending_repair {
            Some(st) => {
                let epoch_changed = match (
                    conn.fec_encoder.first_metadata,
                    st.first_protected_metadata_for_epoch,
                ) {
                    (Some(a), Some(b)) => a != b,
                    (None, None) => false,
                    _ => true,
                };
                if epoch_changed {
                    self.state_sending_repair = None;
                }
            },
            None => {},
        }
        let total = total_non_fec_bif(conn);
        let idle = !conn.has_writable_datagram && !conn.has_flushable_stream;
        proof {
            lemma_u64_mul_fits_u128(conn.fec_encoder.n_protected_symbols as int, ss as int);
        }
        let sent_enough = (conn.fec_encoder.n_protected_symbols as u128) * ss
            > (params.burst_size_bytes as u128);
        let enough_room = path.cwnd_available > params.minimum_room_in_cwin;
        let cooldown_ok = match self.first_source_symbol_in_burst_sent_time {
            None => true,
            Some(t) => (now as u128) > (t as u128) + (params.fec_cooldown_us as u128),
        };
        if self.state_sending_repair.is_none() && idle && sent_enough && enough_room
            && cooldown_ok {
            self.state_sending_repair = Some(
                SendingState { first_protected_metadata_for_epoch: conn.fec_encoder.first_metadata },
            );
        }
        if idle {
            self.n_packets_sent_when_nothing_to_send = conn.sent_count;
            self.n_bytes_sent_when_nothing_to_send = conn.sent_bytes;
        }
        proof {
            lemma_u64_mul_fits_u128(params.bandwidth_probing_bps as int, path.rtt_us as int);
        }
        let goodput_bits = sat_mul_u128(total, 8000000);
        let probe_target = (params.bandwidth_probing_bps as u128) * (path.rtt_us as u128);
        let should_probe = path.app_limited && goodput_bits < probe_target;
        let max_repair_data = protection_budget_u128(total, params.frac_denominator_to_protect);
        proof {
            lemma_u64_mul_fits_u128(self.n_repair_in_flight as int, ss as int);
        }
        should_probe || (enough_room && (self.n_repair_in_flight as u128) * ss < max_repair_data)
    }

    /// Record the emission of one repair symbol.
    pub fn sent_repair_symbol(&mut self, _encoder: &EncoderView)
        requires
            old(self).n_repair_in_flight < u64::MAX,
        ensures
            *final(self) == cooldown_sent_repair_step(*old(self)),
    {
        self.n_repair_in_flight = self.n_repair_in_flight + 1;
        self.first_source_symbol_in_burst_sent_time = None;
    }

    /// Record the acknowledgement of one repair symbol.  The caller must
    /// pair each emission with exactly one acknowledgement or loss.
    pub fn acked_repair_symbol(&mut self, _encoder: &EncoderView)
        requires
            old(self).n_repair_in_flight > 0,
        ensures
            *final(self) == cooldown_acked_step(*old(self)),
    {
        self.n_repair_in_flight = self.n_repair_in_flight - 1;
    }

    /// Record the emission of one source symbol.
    pub fn sent_source_symbol(&mut self, _encoder: &EncoderView, now: u64)
        ensures
            *final(self) == cooldown_sent_source_step(*old(self), now),
    {
        if self.first_source_symbol_in_burst_sent_time.is_none() {
            self.first_source_symbol_in_burst_sent_time = Some(now);
        }
    }

    /// Record the loss of one repair symbol; it releases the in-flight
    /// slot exactly as an acknowledgement does.
    pub fn lost_repair_symbol(&mut self, encoder: &EncoderView)
        requires
            old(self).n_repair_in_flight > 0,
        ensures
            *final(self) == cooldown_acked_step(*old(self)),
    {
        self.acked_repair_symbol(encoder)
    }
}

/// Off the repair-only path the cooldown policy neither decides to emit
/// nor changes any state.
pub proof fn lemma_cooldown_inert_off_path(
    s: CooldownFECSchedulerWithFECOnly,
    conn: ConnectionView,
    path: PathView,
    symbol_size: usize,
    now: u64,
    params: FECSchedulerParams,
)
    requires
        !path.fec_only,
    ensures
        cooldown_query_step(s, conn, path, symbol_size, now, params) == (s, false),
{
}

/// Querying twice with the same clock reading and the same inputs returns
/// the same decision: the decision reads only the inputs and the in-flight
/// count, which the query never changes.
pub proof fn lemma_cooldown_query_stable(
    s: CooldownFECSchedulerWithFECOnly,
    conn: ConnectionView,
    path: PathView,
    symbol_size: usize,
    now: u64,
    params: FECSchedulerParams,
)
    ensures
        ({
            let (s1, r1) = cooldown_query_step(s, conn, path, symbol_size, now, params);
            let (s2, r2) = cooldown_query_step(s1, conn, path, symbol_size, now, params);
            r2 == r1
        }),
{
}

/// One emission followed by its acknowledgement (or loss) leaves the
/// number of repair symbols in flight unchanged.
pub proof fn lemma_cooldown_emit_ack_balance(s: CooldownFECSchedulerWithFECOnly)
    requires
        s.n_repair_in_flight < u64::MAX,
    ensures
        cooldown_acked_step(cooldown_sent_repair_step(s)).n_repair_in_flight
            == s.n_repair_in_flight,
{
}

} // verus!
