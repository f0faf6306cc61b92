use ble_link::RawError;
use ble_link::conn::ConnTable;
use ble_link::conn::Connection;
use ble_link::portal::Portal;
use ble_link::signal::Signal;

#[test]
fn signal_buffers_one_value_and_delivers_it_once() {
    let mut s: Signal<u32> = Signal::new();
    assert!(s.try_take().is_none());
    s.signal(17);
    assert_eq!(s.try_take(), Some(17));
    assert!(s.try_take().is_none());
}

#[test]
fn signal_can_be_reused_after_consumption() {
    let mut s: Signal<&str> = Signal::new();
    s.signal("first");
    assert_eq!(s.try_take(), Some("first"));
    s.signal("second");
    assert_eq!(s.try_take(), Some("second"));
}

#[test]
fn portal_rejects_second_waiter_while_one_is_pending() {
    let mut p: Portal<u8> = Portal::new();
    assert!(!p.occupied());
    assert!(p.register(1).is_ok());
    assert!(p.occupied());
    assert!(p.register(2).is_err());
    // The pending waiter is untouched by the rejected registration.
    assert_eq!(p.take(), Some(1));
    assert!(!p.occupied());
    assert!(p.register(3).is_ok());
}

#[test]
fn raw_error_convert_maps_the_codes_the_driver_reacts_to() {
    assert_eq!(RawError::convert(0), Ok(()));
    assert_eq!(RawError::convert(19), Err(RawError::Resources));
    assert_eq!(RawError::convert(8), Err(RawError::InvalidState));
    assert_eq!(RawError::convert(4), Err(RawError::Other(4)));
}

#[test]
fn check_connected_fails_before_connect_and_after_disconnect() {
    let mut table = ConnTable::new();
    let conn = Connection::new(2);
    // No successful connect has completed for the handle yet.
    assert!(table.check_connected(&conn).is_err());
    table.on_connected(2);
    assert_eq!(table.check_connected(&conn), Ok(2));
    // Other handles are unaffected.
    assert!(table.check_connected(&Connection::new(3)).is_err());
    table.on_disconnected(2);
    assert!(table.check_connected(&conn).is_err());
}

#[test]
fn negotiation_results_are_recorded_without_touching_liveness() {
    let mut table = ConnTable::new();
    table.on_connected(4);
    let conn = Connection::new(4);
    table.on_att_mtu_exchanged(&conn, 185);
    table.on_data_length_updated(&conn, 251);
    let st = table.with_state(&conn);
    assert_eq!(st.att_mtu, 185);
    assert_eq!(st.data_length, 251);
    assert!(st.connected);
}

#[test]
fn with_state_reads_the_record_of_the_handle() {
    let mut table = ConnTable::new();
    table.on_connected(1);
    let conn = Connection::new(1);
    table.set_phys(&conn, 2, 1);
    let st = table.with_state(&conn);
    assert!(st.connected);
    assert_eq!(st.handle, 1);
    assert_eq!(st.tx_phys, 2);
    assert_eq!(st.rx_phys, 1);
    assert_eq!(st.check_connected(), Ok(1));
}
