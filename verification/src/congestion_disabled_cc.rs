//! A disabled congestion controller for the newer congestion interface.
//!
//! Acknowledgements leave the state untouched; only a congestion event
//! touches it, pinning the congestion window at the top of the range so
//! that it never throttles output.

use vstd::prelude::*;

use crate::disabled_cc::Acked;

verus! {

/// The congestion state this controller reads and writes.
pub struct Congestion {
    pub congestion_window: usize,
}

pub fn on_init(_r: &mut Congestion)
    ensures
        *final(_r) == *old(_r),
{
}

pub fn on_packet_sent(_r: &mut Congestion, _sent_bytes: usize, _bytes_in_flight: usize)
    ensures
        *final(_r) == *old(_r),
{
}

/// Acknowledging one packet changes nothing here.
pub fn on_packet_acked(_r: &mut Congestion, _bytes_in_flight: usize, _packet: &Acked)
    ensures
        *final(_r) == *old(_r),
{
}

/// Acknowledging a batch of packets changes nothing here.
pub fn on_packets_acked(r: &mut Congestion, bytes_in_flight: usize, packets: &Vec<Acked>)
    ensures
        *final(r) == *old(r),
{
    let n = packets.len();
    let mut i: usize = 0;
    while i < n
        invariant
            i <= n,
            n == packets@.len(),
            *r == *old(r),
        decreases n - i,
    {
        on_packet_acked(r, bytes_in_flight, &packets[i]);
        i = i + 1;
    }
}

/// A congestion event pins the window at the top of the range.
pub fn congestion_event(r: &mut Congestion)
    ensures
        *final(r) == (Congestion { congestion_window: (usize::MAX - 1) as usize, ..*old(r) }),
{
    r.congestion_window = usize::MAX - 1;
}

pub fn checkpoint(_r: &mut Congestion)
    ensures
        *final(_r) == *old(_r),
{
}

pub fn rollback(_r: &mut Congestion) -> (ok: bool)
    ensures
        *final(_r) == *old(_r),
        ok,
{
    true
}

pub fn has_custom_pacing() -> (r: bool)
    ensures
        !r,
{
    false
}

/// This controller renders nothing of itself.
pub fn debug_fmt(_r: &Congestion) -> (s: String)
    ensures
        s@ == Seq::<char>::empty(),
{
    String::new()
}

} // verus!
