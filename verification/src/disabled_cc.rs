//! A disabled congestion controller.
//!
//! Pins the congestion window at the top of the range on every congestion
//! event and on every acknowledgement, so that the window never throttles
//! output; useful in measurement setups.  It is a strict plug-in of the
//! recovery interface and holds no decision logic of its own.
//!
//! The recovery context and the acknowledged-packet record are carried as
//! plain views.  Two judgements that the embedding transport computes from
//! state this module never sees, whether the packet was sent while
//! congestion recovery was under way and whether its acknowledgement ends
//! the hybrid slow-start phase, arrive as fields of the record.  The byte
//! counters saturate rather than wrap.

use vstd::prelude::*;

verus! {

/// The recovery state this controller reads and writes.
pub struct Recovery {
    pub bytes_in_flight: usize,
    pub congestion_window: usize,
    pub ssthresh: usize,
    pub bytes_acked_sl: usize,
    pub bytes_acked_ca: usize,
    pub app_limited: bool,
}

/// One acknowledged packet.
#[derive(Clone, Copy, Debug)]
pub struct Acked {
    /// Size of the packet in bytes.
    pub size: usize,
    /// The packet was sent while congestion recovery was under way.
    pub in_congestion_recovery: bool,
    /// Acknowledging this packet ends the hybrid slow-start phase.
    pub hystart_css_complete: bool,
}

/// The effect of acknowledging one packet: the packet leaves the bytes in
/// flight; outside congestion recovery and app-limited phases, the
/// congestion window is pinned at the top of the range.
pub open spec fn packet_acked_step(r: Recovery, p: Acked) -> Recovery {
    let r1 = Recovery { bytes_in_flight: r.bytes_in_flight.saturating_sub(p.size), ..r };
    if p.in_congestion_recovery {
        r1
    } else if r.app_limited {
        r1
    } else if r.congestion_window < r.ssthresh {
        let r2 = Recovery {
            bytes_acked_sl: r1.bytes_acked_sl.saturating_add(p.size),
            congestion_window: (usize::MAX - 1) as usize,
            ..r1
        };
        if p.hystart_css_complete {
            Recovery { ssthresh: r2.congestion_window, ..r2 }
        } else {
            r2
        }
    } else {
        let ca = r1.bytes_acked_ca.saturating_add(p.size);
        if ca >= r1.congestion_window {
            Recovery {
                bytes_acked_ca: (ca - r1.congestion_window) as usize,
                congestion_window: (usize::MAX - 1) as usize,
                ..r1
            }
        } else {
            Recovery { bytes_acked_ca: ca, ..r1 }
        }
    }
}

/// The effect of acknowledging a batch of packets, first to last.
pub open spec fn packets_acked_fold(r: Recovery, packets: Seq<Acked>) -> Recovery
    decreases packets.len(),
{
    if packets.len() == 0 {
        r
    } else {
        packets_acked_fold(packet_acked_step(r, packets[0]), packets.drop_first())
    }
}

pub fn on_init(_r: &mut Recovery)
    ensures
        *final(_r) == *old(_r),
{
}

pub fn reset(_r: &mut Recovery)
    ensures
        *final(_r) == *old(_r),
{
}

/// A sent packet enters the bytes in flight.
pub fn on_packet_sent(r: &mut Recovery, sent_bytes: usize)
    ensures
        *final(r) == (Recovery {
            bytes_in_flight: old(r).bytes_in_flight.saturating_add(sent_bytes),
            ..*old(r)
        }),
{
    r.bytes_in_flight = r.bytes_in_flight.saturating_add(sent_bytes);
}

/// Acknowledge one packet.
pub fn on_packet_acked(r: &mut Recovery, packet: &Acked)
    ensures
        *final(r) == packet_acked_step(*old(r), *packet),
{
    r.bytes_in_flight = r.bytes_in_flight.saturating_sub(packet.size);
    if packet.in_congestion_recovery {
        return;
    }
    if r.app_limited {
        return;
    }
    if r.congestion_window < r.ssthresh {
        r.bytes_acked_sl = r.bytes_acked_sl.saturating_add(packet.size);
        r.congestion_window = usize::MAX - 1;
        if packet.hystart_css_complete {
            r.ssthresh = r.congestion_window;
        }
    } else {
        r.bytes_acked_ca = r.bytes_acked_ca.saturating_add(packet.size);
        if r.bytes_acked_ca >= r.congestion_window {
            r.bytes_acked_ca = r.bytes_acked_ca - r.congestion_window;
            r.congestion_window = usize::MAX - 1;
        }
    }
}

/// Acknowledge a batch of packets, first to last.
pub fn on_packets_acked(r: &mut Recovery, packets: &Vec<Acked>)
    ensures
        *final(r) == packets_acked_fold(*old(r), packets@),
{
    let n = packets.len();
    let mut i: usize = 0;
    proof {
        assert(packets@.skip(0) =~= packets@);
    }
    while i < n
        invariant
            i <= n,
            n == packets@.len(),
            packets_acked_fold(*r, packets@.skip(i as int)) == packets_acked_fold(
                *old(r),
                packets@,
            ),
        decreases n - i,
    {
        proof {
            let rest = packets@.skip(i as int);
            assert(rest[0] == packets@[i as int]);
            assert(rest.drop_first() =~= packets@.skip(i + 1));
        }
        on_packet_acked(r, &packets[i]);
        i = i + 1;
    }
    proof {
        assert(packets@.skip(n as int) =~= Seq::<Acked>::empty());
    }
}

/// A congestion event pins the window at the top of the range.
pub fn congestion_event(r: &mut Recovery)
    ensures
        *final(r) == (Recovery { congestion_window: (usize::MAX - 1) as usize, ..*old(r) }),
{
    r.congestion_window = usize::MAX - 1;
}

/// Collapsing the window pins it at the top of the range instead.
pub fn collapse_cwnd(r: &mut Recovery)
    ensures
        *final(r) == (Recovery { congestion_window: (usize::MAX - 1) as usize, ..*old(r) }),
{
    r.congestion_window = usize::MAX - 1;
}

pub fn checkpoint(_r: &mut Recovery)
    ensures
        *final(_r) == *old(_r),
{
}

pub fn rollback(_r: &mut Recovery) -> (ok: bool)
    ensures
        *final(_r) == *old(_r),
        ok,
{
    true
}

pub fn has_custom_pacing() -> (r: bool)
    ensures
        !r,
{
    false
}

/// This controller renders nothing of itself.
pub fn debug_fmt(_r: &Recovery) -> (s: String)
    ensures
        s@ == Seq::<char>::empty(),
{
    String::new()
}

} // verus!
