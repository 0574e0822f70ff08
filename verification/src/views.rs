//! Plain-value views of the scheduler's collaborators.
//!
//! The scheduler never owns the connection, the per-path recovery context or
//! the FEC encoder; it only reads a handful of observable signals from them
//! on each call.  Those signals are captured here as plain records, filled in
//! by the embedding transport right before each query.  Wall-clock instants
//! are carried as microsecond counts on a monotonic clock chosen by the
//! caller; durations are microsecond counts as well.

use vstd::prelude::*;

verus! {

/// What the scheduler reads from the FEC encoder: how many source symbols
/// the coding window currently protects, the metadata of the earliest
/// protected symbol (an opaque identifier, compared only for equality), and
/// the time at which that earliest symbol was sent, when known.
#[derive(Clone, Copy, Debug)]
pub struct EncoderView {
    pub n_protected_symbols: u64,
    pub first_metadata: Option<u64>,
    pub first_metadata_sent_time: Option<u64>,
}

/// What the scheduler reads from one network path's recovery state.
///
/// The loss statistics mirror a fractional measurement: the mean number of
/// packets lost per round trip is carried rounded down, and the ceiling of
/// its variance is carried separately, so that the integer estimate
/// `mean + 2 * ceil(variance)` equals the truncation of the fractional one.
#[derive(Clone, Copy, Debug)]
pub struct PathView {
    pub cwnd: u64,
    pub cwnd_available: u64,
    pub rtt_us: u64,
    pub app_limited: bool,
    pub packets_lost_per_round_trip: Option<u64>,
    pub var_packets_lost_per_round_trip_ceil: u64,
    pub fec_only: bool,
}

/// What the scheduler reads from the connection on each decision.
#[derive(Clone, Debug)]
pub struct ConnectionView {
    pub has_writable_datagram: bool,
    pub has_flushable_stream: bool,
    pub sent_count: u64,
    pub sent_bytes: u64,
    pub tx_data: u64,
    pub paths: Vec<PathView>,
    pub fec_encoder: EncoderView,
}

/// The connection has neither datagrams nor flushable stream data to emit.
pub open spec fn nothing_to_send(conn: ConnectionView) -> bool {
    !conn.has_writable_datagram && !conn.has_flushable_stream
}

/// Bytes in flight on one path: the congestion window minus what is still
/// available of it, never below zero.
pub open spec fn path_bif(p: PathView) -> int {
    if p.cwnd >= p.cwnd_available {
        p.cwnd - p.cwnd_available
    } else {
        0
    }
}

/// Bytes in flight summed over every path not dedicated to repair traffic.
pub open spec fn total_non_fec_bif_of(paths: Seq<PathView>) -> int
    decreases paths.len(),
{
    if paths.len() == 0 {
        0
    } else {
        total_non_fec_bif_of(paths.drop_last()) + if !paths.last().fec_only {
            path_bif(paths.last())
        } else {
            0
        }
    }
}

pub proof fn lemma_total_non_fec_bif_bound(paths: Seq<PathView>)
    ensures
        0 <= total_non_fec_bif_of(paths) <= paths.len() * (u64::MAX as int),
    decreases paths.len(),
{
    if paths.len() != 0 {
        lemma_total_non_fec_bif_bound(paths.drop_last());
    }
}

/// The protection budget carved from `bytes_to_protect`: three fifths of a
/// small quantity (higher fractional overhead costs little in absolute
/// bytes and strongly improves small-object recovery), a configurable
/// fraction of a large one.
pub open spec fn protection_budget(bytes_to_protect: int, frac_denominator: int) -> int
    recommends
        frac_denominator >= 1,
{
    if bytes_to_protect < 15000 {
        bytes_to_protect * 3 / 5
    } else {
        bytes_to_protect / frac_denominator
    }
}

/// Executable form of [`protection_budget`].
pub fn protection_budget_u128(bytes_to_protect: u128, frac_denominator: u64) -> (r: u128)
    requires
        frac_denominator >= 1,
    ensures
        r == protection_budget(bytes_to_protect as int, frac_denominator as int),
{
    if bytes_to_protect < 15000 {
        bytes_to_protect * 3 / 5
    } else {
        bytes_to_protect / (frac_denominator as u128)
    }
}

/// Bytes in flight on one path, as the recovery state exposes it.
pub fn bif_of_path(p: &PathView) -> (r: u64)
    ensures
        r == path_bif(*p),
{
    if p.cwnd >= p.cwnd_available {
        p.cwnd - p.cwnd_available
    } else {
        0
    }
}

/// Bytes in flight summed over the non-repair paths of the connection.
pub fn total_non_fec_bif(conn: &ConnectionView) -> (r: u128)
    ensures
        r == total_non_fec_bif_of(conn.paths@),
{
    let n = conn.paths.len();
    let mut acc: u128 = 0;
    let mut i: usize = 0;
    proof {
        assert(conn.paths@.take(0) =~= Seq::<PathView>::empty());
    }
    while i < n
        invariant
            i <= n,
            n == conn.paths@.len(),
            acc == total_non_fec_bif_of(conn.paths@.take(i as int)),
            acc <= i * (u64::MAX as int),
        decreases n - i,
    {
        let p = &conn.paths[i];
        let term: u64 = if !p.fec_only { bif_of_path(p) } else { 0 };
        proof {
            let pre = conn.paths@.take(i as int);
            let post = conn.paths@.take(i + 1);
            assert(post.drop_last() =~= pre);
            assert(post.last() == conn.paths@[i as int]);
        }
        acc = acc + term as u128;
        i = i + 1;
    }
    proof {
        assert(conn.paths@.take(n as int) =~= conn.paths@);
    }
    acc
}

} // verus!
