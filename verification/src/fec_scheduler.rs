//! The scheduler dispatcher: a tagged sum of the available policies, a
//! parser for their names, and the properties every policy shares.

use vstd::prelude::*;
use vstd::string::StrSliceExecFns;

use crate::background_fec_scheduler::background_acked_step;
use crate::background_fec_scheduler::background_query_step;
use crate::background_fec_scheduler::background_sent_repair_step;
use crate::background_fec_scheduler::background_sent_source_step;
use crate::background_fec_scheduler::background_timeout_spec;
use crate::background_fec_scheduler::BackgroundFECScheduler;
use crate::burst_protecting_fec_scheduler::bursts_acked_step;
use crate::burst_protecting_fec_scheduler::bursts_query_step;
use crate::burst_protecting_fec_scheduler::bursts_sent_repair_step;
use crate::burst_protecting_fec_scheduler::bursts_sent_source_step;
use crate::burst_protecting_fec_scheduler::BurstsFECScheduler;
use crate::burst_protecting_fec_scheduler_with_fec_only::bursts_fec_only_query_step;
use crate::burst_protecting_fec_scheduler_with_fec_only::BurstsFECSchedulerWithFECOnly;
use crate::cooldown_fec_scheduler_with_fec_only::cooldown_acked_step;
use crate::cooldown_fec_scheduler_with_fec_only::cooldown_query_step;
use crate::cooldown_fec_scheduler_with_fec_only::cooldown_sent_repair_step;
use crate::cooldown_fec_scheduler_with_fec_only::cooldown_sent_source_step;
use crate::cooldown_fec_scheduler_with_fec_only::CooldownFECSchedulerWithFECOnly;
use crate::params::FECSchedulerParams;
use crate::views::path_bif;
use crate::views::ConnectionView;
use crate::views::EncoderView;
use crate::views::PathView;

verus! {

/// The errors this library reports.
#[derive(Clone, Copy, Debug, PartialEq, Eq, Structural)]
pub enum Error {
    /// An algorithm name did not parse.
    FECScheduler,
}

/// Available redundancy scheduling policies, by name.
#[derive(Clone, Copy, Debug, PartialEq, Eq, Structural)]
pub enum FECSchedulerAlgorithm {
    /// Never sends redundancy (default).  `noredundancy` in string form.
    NoRedundancy,
    /// Sends redundancy only when there is no user data to send.
    /// `background` in string form.
    BackgroundOnly,
    /// Sends redundancy only when there is no user data to send and a
    /// burst of packets has been sent.  `bursts` in string form.
    BurstsOnly,
    /// The burst policy restricted to a repair-only path.
    /// `bursts_feconly` in string form.
    BurstsOnlyWithFECOnly,
    /// The epoch-driven cooldown policy on a repair-only path.
    /// `cooldown_feconly` in string form.
    CooldownWithFECOnly,
}

/// Which algorithm a name denotes, if any.
pub open spec fn algorithm_of_name(name: Seq<char>) -> Option<FECSchedulerAlgorithm> {
    if name == "noredundancy"@ {
        Some(FECSchedulerAlgorithm::NoRedundancy)
    } else if name == "background"@ {
        Some(FECSchedulerAlgorithm::BackgroundOnly)
    } else if name == "bursts"@ {
        Some(FECSchedulerAlgorithm::BurstsOnly)
    } else if name == "bursts_feconly"@ {
        Some(FECSchedulerAlgorithm::BurstsOnlyWithFECOnly)
    } else if name == "cooldown_feconly"@ {
        Some(FECSchedulerAlgorithm::CooldownWithFECOnly)
    } else {
        None
    }
}

/// Character-by-character string comparison.
fn str_eq(a: &str, b: &str) -> (r: bool)
    ensures
        r == (a@ == b@),
{
    let alen = a.unicode_len();
    let blen = b.unicode_len();
    if alen != blen {
        return false;
    }
    let mut i: usize = 0;
    while i < alen
        invariant
            i <= alen,
            alen == a@.len(),
            alen == b@.len(),
            forall|j: int| 0 <= j < i ==> a@[j] == b@[j],
        decreases alen - i,
    {
        if a.get_char(i) != b.get_char(i) {
            return false;
        }
        i = i + 1;
    }
    proof {
        assert(a@ =~= b@);
    }
    true
}

impl FECSchedulerAlgorithm {
    /// Parse an algorithm name.  Exactly the five documented names are
    /// accepted; anything else reports [`Error::FECScheduler`].
    pub fn from_str(name: &str) -> (r: Result<FECSchedulerAlgorithm, Error>)
        ensures
            ({
                match algorithm_of_name(name@) {
                    Some(alg) => r == Ok::<FECSchedulerAlgorithm, Error>(alg),
                    None => r == Err::<FECSchedulerAlgorithm, Error>(Error::FECScheduler),
                }
            }),
    {
        proof {
            reveal_strlit("noredundancy");
            reveal_strlit("background");
            reveal_strlit("bursts");
            reveal_strlit("bursts_feconly");
            reveal_strlit("cooldown_feconly");
        }
        if str_eq(name, "noredundancy") {
            Ok(FECSchedulerAlgorithm::NoRedundancy)
        } else if str_eq(name, "background") {
            Ok(FECSchedulerAlgorithm::BackgroundOnly)
        } else if str_eq(name, "bursts") {
            Ok(FECSchedulerAlgorithm::BurstsOnly)
        } else if str_eq(name, "bursts_feconly") {
            Ok(FECSchedulerAlgorithm::BurstsOnlyWithFECOnly)
        } else if str_eq(name, "cooldown_feconly") {
            Ok(FECSchedulerAlgorithm::CooldownWithFECOnly)
        } else {
            Err(Error::FECScheduler)
        }
    }
}

/// A scheduler: one of the policies, with its state.
pub enum FECScheduler {
    NoRedundancy,
    BackgroundOnly(BackgroundFECScheduler),
    Bursty(BurstsFECScheduler),
    BurstyFECOnly(BurstsFECSchedulerWithFECOnly),
    CooldownFECOnly(CooldownFECSchedulerWithFECOnly),
}

/// The scheduler a given algorithm starts from.
pub open spec fn initial_scheduler(alg: FECSchedulerAlgorithm) -> FECScheduler {
    match alg {
        FECSchedulerAlgorithm::NoRedundancy => FECScheduler::NoRedundancy,
        FECSchedulerAlgorithm::BackgroundOnly => FECScheduler::BackgroundOnly(
            BackgroundFECScheduler {
                delaying_duration_us: crate::params::DEFAULT_DELAYING_DURATION_US,
                n_repair_in_flight: 0,
                rs_triggering_time: None,
                rs_sent_for_this_round: false,
            },
        ),
        FECSchedulerAlgorithm::BurstsOnly => FECScheduler::Bursty(
            crate::burst_protecting_fec_scheduler::bursts_initial_state(),
        ),
        FECSchedulerAlgorithm::BurstsOnlyWithFECOnly => FECScheduler::BurstyFECOnly(
            BurstsFECSchedulerWithFECOnly {
                inner: crate::burst_protecting_fec_scheduler::bursts_initial_state(),
            },
        ),
        FECSchedulerAlgorithm::CooldownWithFECOnly => FECScheduler::CooldownFECOnly(
            CooldownFECSchedulerWithFECOnly {
                n_repair_in_flight: 0,
                n_packets_sent_when_nothing_to_send: 0,
                n_bytes_sent_when_nothing_to_send: 0,
                first_source_symbol_in_burst_sent_time: None,
                state_sending_repair: None,
            },
        ),
    }
}

fn new_background_scheduler() -> (s: FECScheduler)
    ensures
        s == initial_scheduler(FECSchedulerAlgorithm::BackgroundOnly),
{
    FECScheduler::BackgroundOnly(BackgroundFECScheduler::new())
}

fn new_bursts_only_scheduler() -> (s: FECScheduler)
    ensures
        s == initial_scheduler(FECSchedulerAlgorithm::BurstsOnly),
{
    FECScheduler::Bursty(BurstsFECScheduler::new())
}

fn new_bursts_fec_only_scheduler() -> (s: FECScheduler)
    ensures
        s == initial_scheduler(FECSchedulerAlgorithm::BurstsOnlyWithFECOnly),
{
    FECScheduler::BurstyFECOnly(BurstsFECSchedulerWithFECOnly::new())
}

fn new_cooldown_fec_only_scheduler() -> (s: FECScheduler)
    ensures
        s == initial_scheduler(FECSchedulerAlgorithm::CooldownWithFECOnly),
{
    FECScheduler::CooldownFECOnly(CooldownFECSchedulerWithFECOnly::new())
}

/// Construct the scheduler selected at connection setup.
pub fn new_fec_scheduler(alg: FECSchedulerAlgorithm) -> (s: FECScheduler)
    ensures
        s == initial_scheduler(alg),
{
    match alg {
        FECSchedulerAlgorithm::NoRedundancy => FECScheduler::NoRedundancy,
        FECSchedulerAlgorithm::BackgroundOnly => new_background_scheduler(),
        FECSchedulerAlgorithm::BurstsOnly => new_bursts_only_scheduler(),
        FECSchedulerAlgorithm::BurstsOnlyWithFECOnly => new_bursts_fec_only_scheduler(),
        FECSchedulerAlgorithm::CooldownWithFECOnly => new_cooldown_fec_only_scheduler(),
    }
}

/// The number of repair symbols in flight a scheduler currently accounts.
pub open spec fn scheduler_repair_in_flight(s: FECScheduler) -> int {
    match s {
        FECScheduler::NoRedundancy => 0,
        FECScheduler::BackgroundOnly(b) => b.n_repair_in_flight as int,
        FECScheduler::Bursty(b) => b.n_repair_in_flight as int,
        FECScheduler::BurstyFECOnly(b) => b.inner.n_repair_in_flight as int,
        FECScheduler::CooldownFECOnly(c) => c.n_repair_in_flight as int,
    }
}

/// An emission can be recorded: the in-flight count has room.
pub open spec fn can_record_emission(s: FECScheduler) -> bool {
    scheduler_repair_in_flight(s) < u64::MAX || s is NoRedundancy
}

/// An acknowledgement or loss can be recorded: a repair symbol is in
/// flight.
pub open spec fn can_record_ack(s: FECScheduler) -> bool {
    scheduler_repair_in_flight(s) > 0 || s is NoRedundancy
}

/// One decision, dispatched to the selected policy.
pub open spec fn scheduler_query_step(
    s: FECScheduler,
    conn: ConnectionView,
    path: PathView,
    symbol_size: usize,
    now: u64,
    params: FECSchedulerParams,
) -> (FECScheduler, bool) {
    match s {
        FECScheduler::NoRedundancy => (s, false),
        FECScheduler::BackgroundOnly(b) => {
            let (b2, r) = background_query_step(b, conn, path, symbol_size, now, params);
            (FECScheduler::BackgroundOnly(b2), r)
        },
        FECScheduler::Bursty(b) => {
            let (b2, r) = bursts_query_step(
                b,
                conn,
                path,
                symbol_size,
                now,
                params,
                path_bif(path),
            );
            (FECScheduler::Bursty(b2), r)
        },
        FECScheduler::BurstyFECOnly(b) => {
            let (b2, r) = bursts_fec_only_query_step(b, conn, path, symbol_size, now, params);
            (FECScheduler::BurstyFECOnly(b2), r)
        },
        FECScheduler::CooldownFECOnly(c) => {
            let (c2, r) = cooldown_query_step(c, conn, path, symbol_size, now, params);
            (FECScheduler::CooldownFECOnly(c2), r)
        },
    }
}

/// Recording one emitted repair symbol, dispatched.
pub open spec fn scheduler_sent_repair_step(s: FECScheduler) -> FECScheduler {
    match s {
        FECScheduler::NoRedundancy => s,
        FECScheduler::BackgroundOnly(b) => FECScheduler::BackgroundOnly(
            background_sent_repair_step(b),
        ),
        FECScheduler::Bursty(b) => FECScheduler::Bursty(bursts_sent_repair_step(b)),
        FECScheduler::BurstyFECOnly(b) => FECScheduler::BurstyFECOnly(
            BurstsFECSchedulerWithFECOnly { inner: bursts_sent_repair_step(b.inner) },
        ),
        FECScheduler::CooldownFECOnly(c) => FECScheduler::CooldownFECOnly(
            cooldown_sent_repair_step(c),
        ),
    }
}

/// Recording one acknowledged or lost repair symbol, dispatched.
pub open spec fn scheduler_acked_step(s: FECScheduler) -> FECScheduler {
    match s {
        FECScheduler::NoRedundancy => s,
        FECScheduler::BackgroundOnly(b) => FECScheduler::BackgroundOnly(background_acked_step(b)),
        FECScheduler::Bursty(b) => FECScheduler::Bursty(bursts_acked_step(b)),
        FECScheduler::BurstyFECOnly(b) => FECScheduler::BurstyFECOnly(
            BurstsFECSchedulerWithFECOnly { inner: bursts_acked_step(b.inner) },
        ),
        FECScheduler::CooldownFECOnly(c) => FECScheduler::CooldownFECOnly(cooldown_acked_step(c)),
    }
}

/// Recording one emitted source symbol, dispatched.
pub open spec fn scheduler_sent_source_step(
    s: FECScheduler,
    enc: EncoderView,
    now: u64,
    params: FECSchedulerParams,
) -> FECScheduler {
    match s {
        FECScheduler::NoRedundancy => s,
        FECScheduler::BackgroundOnly(b) => FECScheduler::BackgroundOnly(
            background_sent_source_step(b),
        ),
        FECScheduler::Bursty(b) => FECScheduler::Bursty(
            bursts_sent_source_step(b, enc, now, params),
        ),
        FECScheduler::BurstyFECOnly(b) => FECScheduler::BurstyFECOnly(
            BurstsFECSchedulerWithFECOnly { inner: bursts_sent_source_step(b.inner, enc, now, params) },
        ),
        FECScheduler::CooldownFECOnly(c) => FECScheduler::CooldownFECOnly(
            cooldown_sent_source_step(c, now),
        ),
    }
}

/// The next wake-up instant, dispatched.
pub open spec fn scheduler_timeout_spec(s: FECScheduler) -> Option<u64> {
    match s {
        FECScheduler::NoRedundancy => None,
        FECScheduler::BackgroundOnly(b) => background_timeout_spec(b),
        FECScheduler::Bursty(b) => b.next_timeout,
        FECScheduler::BurstyFECOnly(b) => b.inner.next_timeout,
        FECScheduler::CooldownFECOnly(_) => None,
    }
}

impl FECScheduler {
    /// Decide whether the next packet on `path` should carry a repair
    /// symbol.  `now` is the caller's reading of a monotonic microsecond
    /// clock; `params` holds the tunables resolved for this decision.
    pub fn should_send_repair(
        &mut self,
        conn: &ConnectionView,
        path: &PathView,
        symbol_size: usize,
        now: u64,
        params: &FECSchedulerParams,
    ) -> (r: bool)
        requires
            params.wf(),
        ensures
            ({
                let (s2, r2) = scheduler_query_step(
                    *old(self),
                    *conn,
                    *path,
                    symbol_size,
                    now,
                    *params,
                );
                *final(self) == s2 && r == r2
            }),
    {
        match self {
            FECScheduler::NoRedundancy => false,
            FECScheduler::BackgroundOnly(b) => b.should_send_repair(
                conn,
                path,
                symbol_size,
                now,
                params,
            ),
            FECScheduler::Bursty(b) => b.should_send_repair(conn, path, symbol_size, now, params),
            FECScheduler::BurstyFECOnly(b) => b.should_send_repair(
                conn,
                path,
                symbol_size,
                now,
                params,
            ),
            FECScheduler::CooldownFECOnly(c) => c.should_send_repair(
                conn,
                path,
                symbol_size,
                now,
                params,
            ),
        }
    }

    /// Record the emission of one repair symbol.
    pub fn sent_repair_symbol(&mut self, encoder: &EncoderView)
        requires
            can_record_emission(*old(self)),
        ensures
            *final(self) == scheduler_sent_repair_step(*old(self)),
    {
        match self {
            FECScheduler::NoRedundancy => {},
            FECScheduler::BackgroundOnly(b) => b.sent_repair_symbol(encoder),
            FECScheduler::Bursty(b) => b.sent_repair_symbol(encoder),
            FECScheduler::BurstyFECOnly(b) => b.sent_repair_symbol(encoder),
            FECScheduler::CooldownFECOnly(c) => c.sent_repair_symbol(encoder),
        }
    }

    /// Record the acknowledgement of one repair symbol.  The caller must
    /// pair each emission with exactly one acknowledgement or loss.
    pub fn acked_repair_symbol(&mut self, encoder: &EncoderView)
        requires
            can_record_ack(*old(self)),
        ensures
            *final(self) == scheduler_acked_step(*old(self)),
    {
        match self {
            FECScheduler::NoRedundancy => {},
            FECScheduler::BackgroundOnly(b) => b.acked_repair_symbol(encoder),
            FECScheduler::Bursty(b) => b.acked_repair_symbol(encoder),
            FECScheduler::BurstyFECOnly(b) => b.acked_repair_symbol(encoder),
            FECScheduler::CooldownFECOnly(c) => c.acked_repair_symbol(encoder),
        }
    }

    /// Record the emission of one source symbol.
    pub fn sent_source_symbol(&mut self, encoder: &EncoderView, now: u64, params: &FECSchedulerParams)
        ensures
            *final(self) == scheduler_sent_source_step(*old(self), *encoder, now, *params),
    {
        match self {
            FECScheduler::NoRedundancy => {},
            FECScheduler::BackgroundOnly(b) => b.sent_source_symbol(encoder),
            FECScheduler::Bursty(b) => b.sent_source_symbol(encoder, now, params),
            FECScheduler::BurstyFECOnly(b) => b.sent_source_symbol(encoder, now, params),
            FECScheduler::CooldownFECOnly(c) => c.sent_source_symbol(encoder, now),
        }
    }

    /// Record the loss of one repair symbol; it releases the in-flight
    /// slot exactly as an acknowledgement does.
    pub fn lost_repair_symbol(&mut self, encoder: &EncoderView)
        requires
            can_record_ack(*old(self)),
        ensures
            *final(self) == scheduler_acked_step(*old(self)),
    {
        match self {
            FECScheduler::NoRedundancy => {},
            FECScheduler::BackgroundOnly(b) => b.lost_repair_symbol(encoder),
            FECScheduler::Bursty(b) => b.lost_repair_symbol(encoder),
            FECScheduler::BurstyFECOnly(b) => b.lost_repair_symbol(encoder),
            FECScheduler::CooldownFECOnly(c) => c.lost_repair_symbol(encoder),
        }
    }

    /// The instant at which the stack should wake up to send new repair
    /// symbols, if one is pending.
    pub fn timeout(&self) -> (r: Option<u64>)
        ensures
            r == scheduler_timeout_spec(*self),
    {
        match self {
            FECScheduler::NoRedundancy => None,
            FECScheduler::BackgroundOnly(b) => b.timeout(),
            FECScheduler::Bursty(b) => b.timeout(),
            FECScheduler::BurstyFECOnly(b) => b.timeout(),
            FECScheduler::CooldownFECOnly(_) => None,
        }
    }
}

/// A scheduler configured for no redundancy never decides to emit repair.
pub proof fn lemma_noredundancy_never_sends(
    conn: ConnectionView,
    path: PathView,
    symbol_size: usize,
    now: u64,
    params: FECSchedulerParams,
)
    ensures
        !scheduler_query_step(
            FECScheduler::NoRedundancy,
            conn,
            path,
            symbol_size,
            now,
            params,
        ).1,
{
}

/// The number of repair symbols in flight is never negative.  It is a
/// count held in an unsigned word; emissions may only be recorded below
/// the top of the range and acknowledgements or losses only while the
/// count is positive, so every legal event sequence keeps it at or above
/// zero.
pub proof fn lemma_repair_in_flight_nonnegative(s: FECScheduler)
    ensures
        0 <= scheduler_repair_in_flight(s),
{
}

/// One emission followed by its acknowledgement (or loss) leaves the
/// number of repair symbols in flight unchanged, whatever the policy.
pub proof fn lemma_emit_ack_balance(s: FECScheduler)
    requires
        can_record_emission(s),
    ensures
        scheduler_repair_in_flight(scheduler_acked_step(scheduler_sent_repair_step(s)))
            == scheduler_repair_in_flight(s),
{
}

/// Querying twice with the same clock reading and the same inputs never
/// turns a negative decision into a positive one, whatever the policy.
pub proof fn lemma_query_stable(
    s: FECScheduler,
    conn: ConnectionView,
    path: PathView,
    symbol_size: usize,
    now: u64,
    params: FECSchedulerParams,
)
    ensures
        ({
            let (s1, r1) = scheduler_query_step(s, conn, path, symbol_size, now, params);
            let (s2, r2) = scheduler_query_step(s1, conn, path, symbol_size, now, params);
            !r1 ==> !r2
        }),
{
    match s {
        FECScheduler::NoRedundancy => {},
        FECScheduler::BackgroundOnly(b) => {
            crate::background_fec_scheduler::lemma_background_query_stable(
                b,
                conn,
                path,
                symbol_size,
                now,
                params,
            );
        },
        FECScheduler::Bursty(b) => {
            crate::burst_protecting_fec_scheduler::lemma_bursts_query_stable(
                b,
                conn,
                path,
                symbol_size,
                now,
                params,
                path_bif(path),
            );
        },
        FECScheduler::BurstyFECOnly(b) => {
            crate::burst_protecting_fec_scheduler::lemma_bursts_query_stable(
                b.inner,
                conn,
                path,
                symbol_size,
                now,
                params,
                crate::views::total_non_fec_bif_of(conn.paths@),
            );
        },
        FECScheduler::CooldownFECOnly(c) => {
            crate::cooldown_fec_scheduler_with_fec_only::lemma_cooldown_query_stable(
                c,
                conn,
                path,
                symbol_size,
                now,
                params,
            );
        },
    }
}

} // verus!
