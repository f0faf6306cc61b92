use ble_link::RawError;
use ble_link::central::Config;
use ble_link::central::ConnectError;
use ble_link::central::ConnectOp;
use ble_link::central::ScanConfig;
use ble_link::central::ScanError;
use ble_link::central::ScanEvent;
use ble_link::central::ScanOp;
use ble_link::central::ScanStep;
use ble_link::central::StopOutcome;
use ble_link::central::AdvReport;
use ble_link::central::connect_stop;
use ble_link::central::connect_stop_result;
use ble_link::cmd::Address;
use ble_link::cmd::Command;
use ble_link::conn::ConnTable;

fn addr(last: u8) -> Address {
    Address { addr_type: 0, addr: [0, 1, 2, 3, 4, last] }
}

#[test]
fn config_default_has_documented_connection_parameters() {
    let c = Config::default();
    assert!(c.att_mtu.is_none());
    assert_eq!(c.tx_phys, 0);
    assert_eq!(c.rx_phys, 0);
    assert_eq!(c.conn_params.min_conn_interval, 40);
    assert_eq!(c.conn_params.max_conn_interval, 200);
    assert_eq!(c.conn_params.slave_latency, 0);
    assert_eq!(c.conn_params.conn_sup_timeout, 400);
}

#[test]
fn connect_command_carries_the_single_peer_and_default_scan_params() {
    let mut op = ConnectOp::new();
    let config = Config::default();
    let wl = vec![addr(9)];
    let cmd = op.start(&wl, &config);
    match cmd {
        Command::Connect { addr, scan, conn } => {
            assert_eq!(addr.addr, [0, 1, 2, 3, 4, 9]);
            assert!(scan.extended);
            assert!(scan.active);
            assert_eq!(scan.scan_phys, 1);
            assert_eq!(scan.interval, 2732);
            assert_eq!(scan.window, 500);
            assert_eq!(scan.timeout, 0);
            assert_eq!(conn.min_conn_interval, 40);
        }
        other => panic!("expected a connect command, got {:?}", other),
    }
}

#[test]
fn connect_success_with_handle_three_reports_connected_with_configured_phys() {
    let mut op = ConnectOp::new();
    let mut table = ConnTable::new();
    let mut config = Config::default();
    config.tx_phys = 2;
    config.rx_phys = 1;
    let wl = vec![addr(7)];
    let _cmd = op.start(&wl, &config);
    assert!(op.issued(Ok(())).is_ok());
    let (res, cancel) = op.on_result(&mut table, &config, Ok(3));
    let conn = res.expect("connect should succeed");
    assert_eq!(conn.handle, 3);
    assert!(cancel.is_none());
    let st = table.with_state(&conn);
    assert!(st.connected);
    // The peer's transmit side is our receive side and vice versa.
    assert_eq!(st.rx_phys, 2);
    assert_eq!(st.tx_phys, 1);
    assert_eq!(table.check_connected(&conn), Ok(3));
    // The follow-up MTU exchange uses the fresh handle.
    match ConnectOp::mtu_exchange(&conn, &config, 23) {
        Command::AttMtuExchange { handle, mtu } => {
            assert_eq!(handle, 3);
            assert_eq!(mtu, 23);
        }
        other => panic!("expected an MTU exchange command, got {:?}", other),
    }
}

#[test]
fn abandoned_connect_issues_exactly_one_cancel_command() {
    let mut op = ConnectOp::new();
    let config = Config::default();
    let wl = vec![addr(1)];
    let _cmd = op.start(&wl, &config);
    assert!(op.issued(Ok(())).is_ok());
    // Abandoned while suspended: the guard fires once.
    assert!(matches!(op.abandon(), Some(Command::CancelConnect)));
    assert!(op.abandon().is_none());
}

#[test]
fn resolved_connect_defuses_the_cancel_guard() {
    let mut op = ConnectOp::new();
    let mut table = ConnTable::new();
    let config = Config::default();
    let wl = vec![addr(1)];
    let _cmd = op.start(&wl, &config);
    assert!(op.issued(Ok(())).is_ok());
    let (res, cancel) = op.on_result(&mut table, &config, Ok(0));
    assert!(res.is_ok());
    assert!(cancel.is_none());
    // Already resolved successfully: zero cancel commands on abandonment.
    assert!(op.abandon().is_none());
}

#[test]
fn rejected_connect_terminates_without_waiting() {
    let mut op = ConnectOp::new();
    let config = Config::default();
    let wl = vec![addr(1)];
    let _cmd = op.start(&wl, &config);
    let r = op.issued(Err(RawError::Other(18)));
    assert_eq!(r, Err(ConnectError::Raw(RawError::Other(18))));
    // Nothing suspended, so nothing to cancel.
    assert!(op.abandon().is_none());
}

#[test]
fn failed_connect_resolution_fires_the_guard() {
    let mut op = ConnectOp::new();
    let mut table = ConnTable::new();
    let config = Config::default();
    let wl = vec![addr(1)];
    let _cmd = op.start(&wl, &config);
    assert!(op.issued(Ok(())).is_ok());
    let (res, cancel) = op.on_result(&mut table, &config, Err(ConnectError::Timeout));
    assert_eq!(res, Err(ConnectError::Timeout));
    assert!(matches!(cancel, Some(Command::CancelConnect)));
}

#[test]
fn connect_stop_tells_not_connecting_apart_from_failures() {
    assert!(matches!(connect_stop(), Command::CancelConnect));
    assert_eq!(connect_stop_result(Ok(())), StopOutcome::Stopped);
    assert_eq!(
        connect_stop_result(Err(RawError::InvalidState)),
        StopOutcome::NotConnecting,
    );
    assert_eq!(
        connect_stop_result(Err(RawError::Other(3))),
        StopOutcome::Failed(RawError::Other(3)),
    );
}

#[test]
fn scan_timeout_resolves_with_failure_and_stops_the_scanner() {
    let mut op = ScanOp::new();
    let cmd = op.start(&ScanConfig::default());
    assert!(matches!(cmd, Command::ScanStart { .. }));
    assert!(op.issued(Ok(())).is_ok());
    match op.on_event(ScanEvent::Timeout) {
        ScanStep::Failed(err, stop) => {
            assert_eq!(err, ScanError::Timeout);
            assert!(matches!(stop, Command::ScanStop));
        }
        other => panic!("expected the scan to fail, got {:?}", other),
    }
    // The scan is over; further events are dropped.
    assert!(matches!(op.on_event(ScanEvent::Timeout), ScanStep::Dropped));
}

#[test]
fn scan_reports_feed_the_accumulator_until_it_finishes() {
    let mut op = ScanOp::new();
    let _cmd = op.start(&ScanConfig::default());
    assert!(op.issued(Ok(())).is_ok());
    let report = AdvReport { peer: addr(5), rssi: -40, data: vec![2, 1, 6] };
    match op.on_event(ScanEvent::AdvReport(report)) {
        ScanStep::Report(rep) => {
            assert_eq!(rep.data, vec![2, 1, 6]);
            assert_eq!(rep.rssi, -40);
        }
        other => panic!("expected a report, got {:?}", other),
    }
    // Caller keeps scanning: restart, then another report ends it.
    assert!(matches!(op.resume(), Command::ScanResume));
    assert!(op.resume_result(Ok(())).is_ok());
    let report2 = AdvReport { peer: addr(6), rssi: -70, data: vec![] };
    assert!(matches!(op.on_event(ScanEvent::AdvReport(report2)), ScanStep::Report(_)));
    assert!(matches!(op.finish(), Command::ScanStop));
}

#[test]
fn rejected_scan_start_surfaces_the_status() {
    let mut op = ScanOp::new();
    let _cmd = op.start(&ScanConfig::default());
    assert_eq!(
        op.issued(Err(RawError::Other(12))),
        Err(ScanError::Raw(RawError::Other(12))),
    );
}

#[test]
fn abandoned_scan_issues_one_stop_command() {
    let mut op = ScanOp::new();
    let _cmd = op.start(&ScanConfig::default());
    assert!(op.issued(Ok(())).is_ok());
    assert!(matches!(op.abandon(), Some(Command::ScanStop)));
    assert!(op.abandon().is_none());
}
