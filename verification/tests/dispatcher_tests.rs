use fec_scheduler::fec_scheduler::new_fec_scheduler;
use fec_scheduler::fec_scheduler::Error;
use fec_scheduler::fec_scheduler::FECScheduler;
use fec_scheduler::fec_scheduler::FECSchedulerAlgorithm;
use fec_scheduler::params::FECSchedulerParams;
use fec_scheduler::views::ConnectionView;
use fec_scheduler::views::EncoderView;
use fec_scheduler::views::PathView;

fn data_path(cwnd: u64, cwnd_available: u64) -> PathView {
    PathView {
        cwnd,
        cwnd_available,
        rtt_us: 50_000,
        app_limited: false,
        packets_lost_per_round_trip: None,
        var_packets_lost_per_round_trip_ceil: 0,
        fec_only: false,
    }
}

fn idle_conn(path: PathView) -> ConnectionView {
    ConnectionView {
        has_writable_datagram: false,
        has_flushable_stream: false,
        sent_count: 0,
        sent_bytes: 0,
        tx_data: 0,
        paths: vec![path],
        fec_encoder: EncoderView {
            n_protected_symbols: 1_000,
            first_metadata: None,
            first_metadata_sent_time: None,
        },
    }
}

#[test]
fn parse_known_algorithm_names() {
    assert_eq!(
        FECSchedulerAlgorithm::from_str("noredundancy"),
        Ok(FECSchedulerAlgorithm::NoRedundancy)
    );
    assert_eq!(
        FECSchedulerAlgorithm::from_str("background"),
        Ok(FECSchedulerAlgorithm::BackgroundOnly)
    );
    assert_eq!(
        FECSchedulerAlgorithm::from_str("bursts"),
        Ok(FECSchedulerAlgorithm::BurstsOnly)
    );
    assert_eq!(
        FECSchedulerAlgorithm::from_str("bursts_feconly"),
        Ok(FECSchedulerAlgorithm::BurstsOnlyWithFECOnly)
    );
    assert_eq!(
        FECSchedulerAlgorithm::from_str("cooldown_feconly"),
        Ok(FECSchedulerAlgorithm::CooldownWithFECOnly)
    );
}

#[test]
fn parse_unknown_algorithm_names_fails() {
    assert_eq!(FECSchedulerAlgorithm::from_str(""), Err(Error::FECScheduler));
    assert_eq!(FECSchedulerAlgorithm::from_str("reedsolomon"), Err(Error::FECScheduler));
    assert_eq!(FECSchedulerAlgorithm::from_str("Bursts"), Err(Error::FECScheduler));
    assert_eq!(FECSchedulerAlgorithm::from_str("bursts "), Err(Error::FECScheduler));
}

#[test]
fn noredundancy_never_sends() {
    let path = data_path(120_000, 20_000);
    let conn = idle_conn(path);
    let params = FECSchedulerParams::default();
    let mut s = new_fec_scheduler(FECSchedulerAlgorithm::NoRedundancy);
    assert!(matches!(s, FECScheduler::NoRedundancy));
    for now in [0_u64, 2_000, 1_000_000] {
        assert!(!s.should_send_repair(&conn, &path, 1_200, now, &params));
    }
    assert_eq!(s.timeout(), None);
}

#[test]
fn noredundancy_callbacks_are_inert() {
    let conn = idle_conn(data_path(0, 0));
    let params = FECSchedulerParams::default();
    let mut s = new_fec_scheduler(FECSchedulerAlgorithm::NoRedundancy);
    s.sent_repair_symbol(&conn.fec_encoder);
    s.acked_repair_symbol(&conn.fec_encoder);
    s.sent_source_symbol(&conn.fec_encoder, 0, &params);
    s.lost_repair_symbol(&conn.fec_encoder);
    assert!(matches!(s, FECScheduler::NoRedundancy));
    assert_eq!(s.timeout(), None);
}

#[test]
fn dispatcher_runs_background_policy() {
    let path = data_path(120_000, 20_000);
    let conn = idle_conn(path);
    let params = FECSchedulerParams::default();
    let mut s = new_fec_scheduler(FECSchedulerAlgorithm::BackgroundOnly);
    assert!(!s.should_send_repair(&conn, &path, 1_200, 0, &params));
    assert_eq!(s.timeout(), Some(2_000));
    assert!(s.should_send_repair(&conn, &path, 1_200, 2_000, &params));
    s.sent_repair_symbol(&conn.fec_encoder);
    match &s {
        FECScheduler::BackgroundOnly(b) => assert_eq!(b.n_repair_in_flight, 1),
        _ => panic!("the dispatcher must hold the background policy"),
    }
}

#[test]
fn dispatcher_runs_bursts_policy() {
    let path = data_path(120_000, 20_000);
    let mut conn = idle_conn(path);
    conn.tx_data = 15_001;
    let params = FECSchedulerParams::default();
    let mut s = new_fec_scheduler(FECSchedulerAlgorithm::BurstsOnly);
    for _ in 0..13 {
        s.sent_source_symbol(&conn.fec_encoder, 0, &params);
    }
    assert!(s.should_send_repair(&conn, &path, 1_200, 0, &params));
    match &s {
        FECScheduler::Bursty(b) => {
            assert_eq!(b.state_sending_repair.unwrap().repair_bytes_to_send, 7_800)
        },
        _ => panic!("the dispatcher must hold the bursts policy"),
    }
}

#[test]
fn dispatcher_runs_fec_only_policies() {
    let data = data_path(120_000, 20_000);
    let conn = idle_conn(data);
    let params = FECSchedulerParams::default();
    // Both repair-only policies decline on a data path.
    let mut wfo = new_fec_scheduler(FECSchedulerAlgorithm::BurstsOnlyWithFECOnly);
    assert!(!wfo.should_send_repair(&conn, &data, 1_200, 0, &params));
    let mut cd = new_fec_scheduler(FECSchedulerAlgorithm::CooldownWithFECOnly);
    assert!(!cd.should_send_repair(&conn, &data, 1_200, 0, &params));
}

#[test]
fn dispatcher_emit_ack_pairs_balance() {
    let conn = idle_conn(data_path(0, 0));
    for alg in [
        FECSchedulerAlgorithm::BackgroundOnly,
        FECSchedulerAlgorithm::BurstsOnly,
        FECSchedulerAlgorithm::BurstsOnlyWithFECOnly,
        FECSchedulerAlgorithm::CooldownWithFECOnly,
    ] {
        let mut s = new_fec_scheduler(alg);
        s.sent_repair_symbol(&conn.fec_encoder);
        s.acked_repair_symbol(&conn.fec_encoder);
        s.sent_repair_symbol(&conn.fec_encoder);
        s.lost_repair_symbol(&conn.fec_encoder);
        let in_flight = match &s {
            FECScheduler::NoRedundancy => 0,
            FECScheduler::BackgroundOnly(b) => b.n_repair_in_flight,
            FECScheduler::Bursty(b) => b.n_repair_in_flight,
            FECScheduler::BurstyFECOnly(b) => b.inner.n_repair_in_flight,
            FECScheduler::CooldownFECOnly(c) => c.n_repair_in_flight,
        };
        assert_eq!(in_flight, 0);
    }
}
