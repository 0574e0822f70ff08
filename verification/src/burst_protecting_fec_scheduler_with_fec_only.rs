//! The burst-protecting policy restricted to a repair-only path.
//!
//! Same state machine as the plain burst-protecting policy, gated on the
//! calling path being dedicated to repair traffic.  The budget base is the
//! bytes in flight summed over the other (data) paths, because the repair
//! flowing on the repair-only path protects data in flight on those.

use vstd::prelude::*;

use crate::burst_protecting_fec_scheduler::bursts_acked_step;
use crate::burst_protecting_fec_scheduler::bursts_initial_state;
use crate::burst_protecting_fec_scheduler::bursts_query_step;
use crate::burst_protecting_fec_scheduler::bursts_sent_repair_step;
use crate::burst_protecting_fec_scheduler::bursts_sent_source_step;
use crate::burst_protecting_fec_scheduler::BurstsFECScheduler;
use crate::params::FECSchedulerParams;
use crate::views::total_non_fec_bif;
use crate::views::total_non_fec_bif_of;
use crate::views::ConnectionView;
use crate::views::EncoderView;
use crate::views::PathView;

verus! {

pub struct BurstsFECSchedulerWithFECOnly {
    /// The underlying burst-protection state machine.
    pub inner: BurstsFECScheduler,
}

/// One decision of the gated policy: off the repair-only path nothing
/// happens; on it, the burst machine runs over the connection-wide base.
pub open spec fn bursts_fec_only_query_step(
    s: BurstsFECSchedulerWithFECOnly,
    conn: ConnectionView,
    path: PathView,
    symbol_size: usize,
    now: u64,
    params: FECSchedulerParams,
) -> (BurstsFECSchedulerWithFECOnly, bool) {
    if !path.fec_only {
        (s, false)
    } else {
        let (i2, r) = bursts_query_step(
            s.inner,
            conn,
            path,
            symbol_size,
            now,
            params,
            total_non_fec_bif_of(conn.paths@),
        );
        (BurstsFECSchedulerWithFECOnly { inner: i2 }, r)
    }
}

impl BurstsFECSchedulerWithFECOnly {
    pub fn new() -> (s: BurstsFECSchedulerWithFECOnly)
        ensures
            s.inner == bursts_initial_state(),
    {
        BurstsFECSchedulerWithFECOnly { inner: BurstsFECScheduler::new() }
    }

    /// Decide whether the next packet on `path` should carry a repair
    /// symbol.  Declines on any path not dedicated to repair traffic.
    pub fn should_send_repair(
        &mut self,
        conn: &ConnectionView,
        path: &PathView,
        symbol_size: usize,
        now: u64,
        params: &FECSchedulerParams,
    ) -> (r: bool)
        requires
            params.wf(),
        ensures
            ({
                let (s2, r2) = bursts_fec_only_query_step(
                    *old(self),
                    *conn,
                    *path,
                    symbol_size,
                    now,
                    *params,
                );
                *final(self) == s2 && r == r2
            }),
    {
        if !path.fec_only {
            return false;
        }
        let base = total_non_fec_bif(conn);
        self.inner.query_with_base(conn, path, symbol_size, now, params, base)
    }

    /// Record the emission of one source symbol.
    pub fn sent_source_symbol(
        &mut self,
        encoder: &EncoderView,
        now: u64,
        params: &FECSchedulerParams,
    )
        ensures
            final(self).inner == bursts_sent_source_step(old(self).inner, *encoder, now, *params),
    {
        self.inner.sent_source_symbol(encoder, now, params)
    }

    /// Record the emission of one repair symbol.
    pub fn sent_repair_symbol(&mut self, encoder: &EncoderView)
        requires
            old(self).inner.n_repair_in_flight < u64::MAX,
        ensures
            final(self).inner == bursts_sent_repair_step(old(self).inner),
    {
        self.inner.sent_repair_symbol(encoder)
    }

    /// Record the acknowledgement of one repair symbol.
    pub fn acked_repair_symbol(&mut self, encoder: &EncoderView)
        requires
            old(self).inner.n_repair_in_flight > 0,
        ensures
            final(self).inner == bursts_acked_step(old(self).inner),
    {
        self.inner.acked_repair_symbol(encoder)
    }

    /// Record the loss of one repair symbol.
    pub fn lost_repair_symbol(&mut self, encoder: &EncoderView)
        requires
            old(self).inner.n_repair_in_flight > 0,
        ensures
            final(self).inner == bursts_acked_step(old(self).inner),
    {
        self.inner.lost_repair_symbol(encoder)
    }

    /// The next instant at which the pending round could first emit.
    pub fn timeout(&self) -> (r: Option<u64>)
        ensures
            r == self.inner.next_timeout,
    {
        self.inner.timeout()
    }
}

/// Off the repair-only path the gated policy neither decides to emit nor
/// changes any state.
pub proof fn lemma_bursts_fec_only_inert_off_path(
    s: BurstsFECSchedulerWithFECOnly,
    conn: ConnectionView,
    path: PathView,
    symbol_size: usize,
    now: u64,
    params: FECSchedulerParams,
)
    requires
        !path.fec_only,
    ensures
        bursts_fec_only_query_step(s, conn, path, symbol_size, now, params) == (s, false),
{
}

} // verus!
