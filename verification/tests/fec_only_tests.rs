use fec_scheduler::burst_protecting_fec_scheduler_with_fec_only::BurstsFECSchedulerWithFECOnly;
use fec_scheduler::cooldown_fec_scheduler_with_fec_only::CooldownFECSchedulerWithFECOnly;
use fec_scheduler::params::FECSchedulerParams;
use fec_scheduler::views::ConnectionView;
use fec_scheduler::views::EncoderView;
use fec_scheduler::views::PathView;

fn path(fec_only: bool, cwnd: u64, cwnd_available: u64, app_limited: bool) -> PathView {
    PathView {
        cwnd,
        cwnd_available,
        rtt_us: 50_000,
        app_limited,
        packets_lost_per_round_trip: None,
        var_packets_lost_per_round_trip_ceil: 0,
        fec_only,
    }
}

fn conn(paths: Vec<PathView>, tx_data: u64, idle: bool, enc: EncoderView) -> ConnectionView {
    ConnectionView {
        has_writable_datagram: false,
        has_flushable_stream: !idle,
        sent_count: 10,
        sent_bytes: tx_data,
        tx_data,
        paths,
        fec_encoder: enc,
    }
}

fn encoder(n_protected_symbols: u64, first_metadata: Option<u64>) -> EncoderView {
    EncoderView { n_protected_symbols, first_metadata, first_metadata_sent_time: None }
}

#[test]
fn bursts_fec_only_declines_off_repair_path() {
    let data = path(false, 120_000, 20_000, false);
    let c = conn(vec![data], 20_000, true, encoder(100, None));
    let params = FECSchedulerParams::default();
    let mut s = BurstsFECSchedulerWithFECOnly::new();
    assert!(!s.should_send_repair(&c, &data, 1_200, 0, &params));
    assert!(s.inner.state_sending_repair.is_none());
}

#[test]
fn bursts_fec_only_protects_data_paths_bytes_in_flight() {
    // The repair-only path itself has nothing in flight; the budget is
    // carved from the data path's 100 kB.
    let repair = path(true, 10_000, 10_000, false);
    let data = path(false, 120_000, 20_000, false);
    let c = conn(vec![data, repair], 15_001, true, encoder(100, None));
    let params = FECSchedulerParams::default();
    let enc = encoder(100, None);
    let mut s = BurstsFECSchedulerWithFECOnly::new();
    for _ in 0..13 {
        s.sent_source_symbol(&enc, 0, &params);
    }
    assert!(s.should_send_repair(&c, &repair, 1_200, 0, &params));
    let round = s.inner.state_sending_repair.expect("a round must be open");
    // min(total bif 100000, 13 * 1200) = 15600, large branch, half of it.
    assert_eq!(round.repair_bytes_to_send, 7_800);
}

#[test]
fn bursts_fec_only_emit_ack_pair_balances() {
    let enc = encoder(100, None);
    let mut s = BurstsFECSchedulerWithFECOnly::new();
    s.sent_repair_symbol(&enc);
    assert_eq!(s.inner.n_repair_in_flight, 1);
    s.lost_repair_symbol(&enc);
    assert_eq!(s.inner.n_repair_in_flight, 0);
}

#[test]
fn cooldown_declines_off_repair_path() {
    let data = path(false, 120_000, 20_000, false);
    let c = conn(vec![data], 0, true, encoder(100, None));
    let params = FECSchedulerParams::default();
    let mut s = CooldownFECSchedulerWithFECOnly::new();
    assert!(!s.should_send_repair(&c, &data, 1_200, 0, &params));
}

#[test]
fn cooldown_probes_when_app_limited_and_under_target() {
    // Nothing in flight anywhere, so measured goodput is zero, below the
    // 1 Mb/s target: repair doubles as a bandwidth probe.
    let repair = path(true, 10_000, 10_000, true);
    let c = conn(vec![repair], 0, true, encoder(0, None));
    let mut params = FECSchedulerParams::default();
    params.bandwidth_probing_bps = 1_000_000;
    let mut s = CooldownFECSchedulerWithFECOnly::new();
    assert!(s.should_send_repair(&c, &repair, 1_200, 0, &params));
}

#[test]
fn cooldown_no_probe_when_not_app_limited() {
    let repair = path(true, 10_000, 10_000, false);
    let c = conn(vec![repair], 0, true, encoder(0, None));
    let mut params = FECSchedulerParams::default();
    params.bandwidth_probing_bps = 1_000_000;
    let mut s = CooldownFECSchedulerWithFECOnly::new();
    // No probe, and the budget from zero bytes in flight is zero.
    assert!(!s.should_send_repair(&c, &repair, 1_200, 0, &params));
}

#[test]
fn cooldown_budget_from_data_paths() {
    // 100 kB in flight on the data path: budget 50000 bytes; with
    // headroom available, emission is allowed while repair in flight
    // stays below the budget.
    let repair = path(true, 120_000, 20_000, false);
    let data = path(false, 120_000, 20_000, false);
    let c = conn(vec![data, repair], 0, true, encoder(100, None));
    let params = FECSchedulerParams::default();
    let mut s = CooldownFECSchedulerWithFECOnly::new();
    assert!(s.should_send_repair(&c, &repair, 1_200, 1_200, &params));
    s.n_repair_in_flight = 41;
    // 41 * 1200 = 49200 < 50000 still passes; one more does not.
    assert!(s.should_send_repair(&c, &repair, 1_200, 1_201, &params));
    s.n_repair_in_flight = 42;
    assert!(!s.should_send_repair(&c, &repair, 1_200, 1_202, &params));
}

#[test]
fn cooldown_needs_headroom_in_congestion_window() {
    // Only 4 kB of the repair path's window is free, below the 5 kB
    // headroom floor: no emission even though the budget would allow it.
    let repair = path(true, 120_000, 4_000, false);
    let data = path(false, 120_000, 20_000, false);
    let c = conn(vec![data, repair], 0, true, encoder(100, None));
    let params = FECSchedulerParams::default();
    let mut s = CooldownFECSchedulerWithFECOnly::new();
    assert!(!s.should_send_repair(&c, &repair, 1_200, 0, &params));
}

#[test]
fn cooldown_round_bound_to_coding_epoch() {
    let repair = path(true, 120_000, 20_000, false);
    let data = path(false, 120_000, 20_000, false);
    let c1 = conn(vec![data, repair], 0, true, encoder(100, Some(1)));
    let params = FECSchedulerParams::default();
    let mut s = CooldownFECSchedulerWithFECOnly::new();
    // The window protects 100 * 1200 = 120000 bytes, above the burst
    // threshold, with headroom: a round arms for epoch 1.
    assert!(s.should_send_repair(&c1, &repair, 1_200, 0, &params));
    assert_eq!(
        s.state_sending_repair.unwrap().first_protected_metadata_for_epoch,
        Some(1)
    );
    // The earliest protected metadata moved: the stale round is dropped
    // and a new one arms for epoch 2.
    let c2 = conn(vec![data, repair], 0, true, encoder(100, Some(2)));
    assert!(s.should_send_repair(&c2, &repair, 1_200, 1, &params));
    assert_eq!(
        s.state_sending_repair.unwrap().first_protected_metadata_for_epoch,
        Some(2)
    );
}

#[test]
fn cooldown_waits_out_the_cooldown() {
    let repair = path(true, 120_000, 20_000, false);
    let data = path(false, 120_000, 20_000, false);
    let c = conn(vec![data, repair], 0, true, encoder(100, Some(1)));
    let mut params = FECSchedulerParams::default();
    params.fec_cooldown_us = 1_000;
    let enc = encoder(100, Some(1));
    let mut s = CooldownFECSchedulerWithFECOnly::new();
    s.sent_source_symbol(&enc, 100);
    assert_eq!(s.first_source_symbol_in_burst_sent_time, Some(100));
    // Before the cooldown has elapsed no round arms; the decision gate is
    // independent of the round and still passes.
    assert!(s.should_send_repair(&c, &repair, 1_200, 500, &params));
    assert!(s.state_sending_repair.is_none());
    // Past the cooldown the round arms.
    assert!(s.should_send_repair(&c, &repair, 1_200, 1_101, &params));
    assert!(s.state_sending_repair.is_some());
}

#[test]
fn cooldown_empty_path_set_has_no_budget() {
    // A connection with no paths has nothing in flight: the budget is
    // zero and no probe target can be undercut by a zero goodput when
    // probing is disabled.
    let repair = path(true, 120_000, 20_000, false);
    let c = conn(Vec::new(), 0, true, encoder(100, None));
    let params = FECSchedulerParams::default();
    let mut s = CooldownFECSchedulerWithFECOnly::new();
    assert!(!s.should_send_repair(&c, &repair, 1_200, 0, &params));
}

#[test]
fn cooldown_budget_sums_data_paths_only() {
    // Two data paths carry 60 kB and 40 kB; the repair path's own window
    // is excluded from the sum.  Budget: 100000 / 2 = 50000 bytes.
    let repair = path(true, 120_000, 0, false);
    let d1 = path(false, 80_000, 20_000, false);
    let d2 = path(false, 50_000, 10_000, false);
    let mut repair_with_room = repair;
    repair_with_room.cwnd_available = 20_000;
    let c = conn(vec![d1, repair_with_room, d2], 0, true, encoder(100, None));
    let params = FECSchedulerParams::default();
    let mut s = CooldownFECSchedulerWithFECOnly::new();
    s.n_repair_in_flight = 41;
    assert!(s.should_send_repair(&c, &repair_with_room, 1_200, 0, &params));
    s.n_repair_in_flight = 42;
    assert!(!s.should_send_repair(&c, &repair_with_room, 1_200, 1, &params));
}

#[test]
fn cooldown_emit_ack_pair_balances() {
    let enc = encoder(0, None);
    let mut s = CooldownFECSchedulerWithFECOnly::new();
    s.sent_repair_symbol(&enc);
    assert_eq!(s.n_repair_in_flight, 1);
    assert_eq!(s.first_source_symbol_in_burst_sent_time, None);
    s.acked_repair_symbol(&enc);
    assert_eq!(s.n_repair_in_flight, 0);
}
