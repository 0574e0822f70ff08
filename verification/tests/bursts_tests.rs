use fec_scheduler::burst_protecting_fec_scheduler::BurstsFECScheduler;
use fec_scheduler::params::FECSchedulerParams;
use fec_scheduler::views::ConnectionView;
use fec_scheduler::views::EncoderView;
use fec_scheduler::views::PathView;

fn data_path(cwnd: u64, cwnd_available: u64) -> PathView {
    PathView {
        cwnd,
        cwnd_available,
        rtt_us: 50_000,
        app_limited: false,
        packets_lost_per_round_trip: None,
        var_packets_lost_per_round_trip_ceil: 0,
        fec_only: false,
    }
}

fn conn_with(path: PathView, tx_data: u64, idle: bool) -> ConnectionView {
    ConnectionView {
        has_writable_datagram: false,
        has_flushable_stream: !idle,
        sent_count: 10,
        sent_bytes: tx_data,
        tx_data,
        paths: vec![path],
        fec_encoder: EncoderView {
            n_protected_symbols: 100,
            first_metadata: None,
            first_metadata_sent_time: None,
        },
    }
}

fn encoder() -> EncoderView {
    EncoderView { n_protected_symbols: 100, first_metadata: None, first_metadata_sent_time: None }
}

/// Send `n` source symbols so the round sizing has something to protect.
fn send_sources(s: &mut BurstsFECScheduler, n: u64, now: u64, params: &FECSchedulerParams) {
    let enc = encoder();
    for _ in 0..n {
        s.sent_source_symbol(&enc, now, params);
    }
}

#[test]
fn bursts_below_threshold_opens_no_round() {
    let path = data_path(120_000, 20_000);
    let conn = conn_with(path, 14_999, true);
    let params = FECSchedulerParams::default();
    let mut s = BurstsFECScheduler::new();
    send_sources(&mut s, 13, 0, &params);
    assert!(!s.should_send_repair(&conn, &path, 1_200, 0, &params));
    assert!(s.state_sending_repair.is_none());
}

#[test]
fn bursts_above_threshold_sends_at_once_without_jitter() {
    let path = data_path(120_000, 20_000);
    let conn = conn_with(path, 15_001, true);
    let params = FECSchedulerParams::default();
    let mut s = BurstsFECScheduler::new();
    send_sources(&mut s, 13, 0, &params);
    assert!(s.should_send_repair(&conn, &path, 1_200, 0, &params));
    // 13 symbols of 1200 bytes were sent: 15600 bytes to protect, large
    // branch, half of it may go out as repair.
    let round = s.state_sending_repair.expect("a round must be open");
    assert_eq!(round.repair_bytes_to_send, 7_800);
    assert_eq!(round.burst_size, 15_001);
    assert_eq!(round.repair_symbols_sent, 0);
}

#[test]
fn bursts_small_burst_protected_at_three_fifths() {
    let path = data_path(120_000, 20_000);
    let conn = conn_with(path, 15_001, true);
    let params = FECSchedulerParams::default();
    let mut s = BurstsFECScheduler::new();
    // 10 symbols: 12000 bytes to protect, small branch: 12000 * 3 / 5.
    send_sources(&mut s, 10, 0, &params);
    assert!(s.should_send_repair(&conn, &path, 1_200, 0, &params));
    let round = s.state_sending_repair.expect("a round must be open");
    assert_eq!(round.repair_bytes_to_send, 7_200);
}

#[test]
fn bursts_jitter_delays_round() {
    let path = data_path(120_000, 20_000);
    let conn = conn_with(path, 15_001, true);
    let mut params = FECSchedulerParams::default();
    params.max_jitter_us = 500;
    let mut s = BurstsFECScheduler::new();
    send_sources(&mut s, 13, 10_000, &params);
    assert!(!s.should_send_repair(&conn, &path, 1_200, 10_000, &params));
    assert_eq!(s.timeout(), Some(10_500));
    assert!(s.should_send_repair(&conn, &path, 1_200, 10_500, &params));
    assert_eq!(s.timeout(), None);
}

#[test]
fn bursts_round_expires_after_rtt() {
    let path = data_path(120_000, 20_000);
    let conn = conn_with(path, 15_001, true);
    let params = FECSchedulerParams::default();
    let mut s = BurstsFECScheduler::new();
    send_sources(&mut s, 13, 0, &params);
    assert!(s.should_send_repair(&conn, &path, 1_200, 0, &params));
    assert!(s.state_sending_repair.is_some());
    // No emission callback arrives; one round-trip time later the round
    // is gone and the decision is negative.
    assert!(!s.should_send_repair(&conn, &path, 1_200, 50_001, &params));
    assert!(s.state_sending_repair.is_none());
}

#[test]
fn bursts_ceiling_grows_within_round() {
    let path = data_path(120_000, 20_000);
    let conn = conn_with(path, 15_001, true);
    let params = FECSchedulerParams::default();
    let mut s = BurstsFECScheduler::new();
    send_sources(&mut s, 13, 0, &params);
    assert!(s.should_send_repair(&conn, &path, 1_200, 0, &params));
    assert_eq!(s.state_sending_repair.unwrap().repair_bytes_to_send, 7_800);
    // More source symbols widen what there is to protect; the ceiling of
    // the same round rises and never falls.
    send_sources(&mut s, 7, 1, &params);
    assert!(s.should_send_repair(&conn, &path, 1_200, 1, &params));
    assert_eq!(s.state_sending_repair.unwrap().repair_bytes_to_send, 12_000);
    assert_eq!(s.state_sending_repair.unwrap().start_time, 0);
}

#[test]
fn bursts_repeated_query_stays_negative() {
    let path = data_path(120_000, 20_000);
    let conn = conn_with(path, 15_001, true);
    let mut params = FECSchedulerParams::default();
    params.max_jitter_us = 500;
    let mut s = BurstsFECScheduler::new();
    send_sources(&mut s, 13, 10_000, &params);
    assert!(!s.should_send_repair(&conn, &path, 1_200, 10_000, &params));
    assert!(!s.should_send_repair(&conn, &path, 1_200, 10_000, &params));
}

#[test]
fn bursts_no_round_opens_while_traffic_pending() {
    let path = data_path(120_000, 20_000);
    let conn = conn_with(path, 15_001, false);
    let params = FECSchedulerParams::default();
    let mut s = BurstsFECScheduler::new();
    send_sources(&mut s, 13, 0, &params);
    assert!(!s.should_send_repair(&conn, &path, 1_200, 0, &params));
    assert!(s.state_sending_repair.is_none());
}

#[test]
fn bursts_emission_counts_against_ceiling() {
    let path = data_path(120_000, 20_000);
    let conn = conn_with(path, 15_001, true);
    let params = FECSchedulerParams::default();
    let enc = encoder();
    let mut s = BurstsFECScheduler::new();
    // 3 symbols: 3600 bytes to protect, ceiling 3600 * 3 / 5 = 2160: one
    // 1200-byte repair symbol fits, a second does not.
    send_sources(&mut s, 3, 0, &params);
    assert!(s.should_send_repair(&conn, &path, 1_200, 0, &params));
    s.sent_repair_symbol(&enc);
    assert_eq!(s.state_sending_repair.unwrap().repair_symbols_sent, 1);
    assert_eq!(s.n_repair_in_flight, 1);
    // 1 * 1200 < 2160 still holds: a second symbol is authorized.
    assert!(s.should_send_repair(&conn, &path, 1_200, 1, &params));
    s.sent_repair_symbol(&enc);
    assert_eq!(s.state_sending_repair.unwrap().repair_symbols_sent, 2);
    // 2 * 1200 >= 2160: the round is exhausted and cleared.
    assert!(!s.should_send_repair(&conn, &path, 1_200, 2, &params));
    assert!(s.state_sending_repair.is_none());
}

#[test]
fn bursts_emit_ack_pair_balances() {
    let enc = encoder();
    let mut s = BurstsFECScheduler::new();
    s.sent_repair_symbol(&enc);
    assert_eq!(s.n_repair_in_flight, 1);
    s.acked_repair_symbol(&enc);
    assert_eq!(s.n_repair_in_flight, 0);
    s.sent_repair_symbol(&enc);
    s.lost_repair_symbol(&enc);
    assert_eq!(s.n_repair_in_flight, 0);
}

#[test]
fn bursts_source_symbol_arms_jitter_gate_only_for_large_bursts() {
    let path = data_path(120_000, 20_000);
    let params = FECSchedulerParams::default();
    let enc = encoder();
    let mut s = BurstsFECScheduler::new();
    // A small ongoing burst leaves the jitter stamp unarmed.
    let conn_small = conn_with(path, 1_000, false);
    assert!(!s.should_send_repair(&conn_small, &path, 1_200, 0, &params));
    s.sent_source_symbol(&enc, 5, &params);
    assert_eq!(s.earliest_unprotected_source_symbol_sent_time, None);
    // A large ongoing burst does.
    let conn_large = conn_with(path, 20_000, false);
    assert!(!s.should_send_repair(&conn_large, &path, 1_200, 10, &params));
    s.sent_source_symbol(&enc, 15, &params);
    assert_eq!(s.earliest_unprotected_source_symbol_sent_time, Some(15));
}

#[test]
fn bursts_source_stamp_follows_encoder_window() {
    let path = data_path(120_000, 20_000);
    let params = FECSchedulerParams::default();
    let mut s = BurstsFECScheduler::new();
    let conn_large = conn_with(path, 20_000, false);
    let enc = encoder();
    assert!(!s.should_send_repair(&conn_large, &path, 1_200, 10, &params));
    s.sent_source_symbol(&enc, 15, &params);
    assert_eq!(s.earliest_unprotected_source_symbol_sent_time, Some(15));
    // The coding window slid forward: the stamp catches up to the sent
    // time of the encoder's earliest still-protected symbol.
    let slid = EncoderView {
        n_protected_symbols: 100,
        first_metadata: Some(7),
        first_metadata_sent_time: Some(40),
    };
    s.sent_source_symbol(&slid, 15, &params);
    assert_eq!(s.earliest_unprotected_source_symbol_sent_time, Some(40));
}
