use ble_link::RawError;
use ble_link::bus::Bus;
use ble_link::bus::ConnEvent;
use ble_link::bus::PsmFilter;
use ble_link::bus::Step;
use ble_link::bus::on_evt;
use ble_link::bus::portal;
use ble_link::cmd::Command;
use ble_link::conn::ConnTable;
use ble_link::conn::Connection;
use ble_link::l2cap::Channel;
use ble_link::l2cap::Config;
use ble_link::l2cap::ExhaustedPacket;
use ble_link::l2cap::L2cap;
use ble_link::l2cap::Packet;
use ble_link::l2cap::RxError;
use ble_link::l2cap::SetupError;
use ble_link::l2cap::TxError;
use ble_link::l2cap::TxTurn;
use ble_link::l2cap::VecPacket;
use ble_link::l2cap::WakeKind;
use ble_link::l2cap::credit_hack_refill;
use ble_link::l2cap::credit_query;

fn connected_fixture(handle: u16) -> (ConnTable, Bus, Connection) {
    let mut table = ConnTable::new();
    table.on_connected(handle);
    let bus = Bus::new(247);
    (table, bus, Connection::new(handle))
}

fn channel_fixture(handle: u16, cid: u16) -> (ConnTable, Bus, Channel<VecPacket>) {
    let (table, bus, conn) = connected_fixture(handle);
    let l2: L2cap<VecPacket> = L2cap::init();
    let ch = l2.setup_finish(&conn, Ok(cid)).expect("channel");
    (table, bus, ch)
}

#[test]
fn setup_handshake_establishes_a_channel() {
    let (table, mut bus, conn) = connected_fixture(1);
    let l2: L2cap<VecPacket> = L2cap::init();
    let config = Config { credits: 1 };
    let cmd = l2.setup_begin(&bus, &table, &conn, 0x25).expect("setup command");
    match cmd {
        Command::ChannelSetup { handle, psm, rx_mps, rx_mtu } => {
            assert_eq!(handle, 1);
            assert_eq!(psm, 0x25);
            assert_eq!(rx_mps, 247);
            assert_eq!(rx_mtu, 247);
        }
        other => panic!("expected a setup command, got {:?}", other),
    }
    assert!(l2.setup_issued(&mut bus, &conn, 0x40, Ok(()), &config).is_ok());
    assert!(portal(&bus, 1).occupied());
    let (step, freed) = on_evt(&mut bus, 1, ConnEvent::ChSetup { cid: 0x40 });
    assert!(!freed);
    let cid = match step {
        Step::SetupDone(Ok(cid)) => cid,
        other => panic!("expected the setup to resolve, got {:?}", other),
    };
    assert_eq!(cid, 0x40);
    assert!(!portal(&bus, 1).occupied());
    let ch = l2.setup_finish(&conn, Ok(cid)).expect("channel");
    assert_eq!(ch.connection().handle, 1);
}

#[test]
fn setup_pushes_extra_credits_before_resolving() {
    let (table, mut bus, conn) = connected_fixture(0);
    let l2: L2cap<VecPacket> = L2cap::init();
    let config = Config { credits: 4 };
    let _cmd = l2.setup_begin(&bus, &table, &conn, 0x33).expect("setup command");
    assert!(l2.setup_issued(&mut bus, &conn, 9, Ok(()), &config).is_ok());
    let (step, _) = on_evt(&mut bus, 0, ConnEvent::ChSetup { cid: 9 });
    match step {
        Step::Pending(Command::FlowControl { handle, cid, credits }) => {
            assert_eq!(handle, 0);
            assert_eq!(cid, 9);
            assert_eq!(credits, 4);
        }
        other => panic!("expected a credit top-up, got {:?}", other),
    }
    assert_eq!(l2.setup_credits_result(&mut bus, &conn, Ok(())), Ok(9));
    assert!(!portal(&bus, 0).occupied());
}

#[test]
fn setup_refused_by_peer() {
    let (table, mut bus, conn) = connected_fixture(1);
    let l2: L2cap<VecPacket> = L2cap::init();
    let config = Config { credits: 1 };
    let _cmd = l2.setup_begin(&bus, &table, &conn, 0x25).expect("setup command");
    assert!(l2.setup_issued(&mut bus, &conn, 7, Ok(()), &config).is_ok());
    let (step, _) = on_evt(&mut bus, 1, ConnEvent::ChSetupRefused);
    assert!(matches!(step, Step::SetupDone(Err(SetupError::Refused))));
}

#[test]
fn setup_on_dead_connection_fails_fast() {
    let table = ConnTable::new();
    let bus = Bus::new(247);
    let conn = Connection::new(1);
    let l2: L2cap<VecPacket> = L2cap::init();
    assert_eq!(
        l2.setup_begin(&bus, &table, &conn, 0x25).unwrap_err(),
        SetupError::Disconnected,
    );
}

#[test]
fn setup_interrupted_by_disconnect_resolves_disconnected() {
    let (table, mut bus, conn) = connected_fixture(1);
    let l2: L2cap<VecPacket> = L2cap::init();
    let config = Config { credits: 1 };
    let _cmd = l2.setup_begin(&bus, &table, &conn, 0x25).expect("setup command");
    assert!(l2.setup_issued(&mut bus, &conn, 7, Ok(()), &config).is_ok());
    let (step, _) = on_evt(&mut bus, 1, ConnEvent::ChReleased);
    assert!(matches!(step, Step::SetupDone(Err(SetupError::Disconnected))));
}

#[test]
fn listener_accepts_matching_psm_and_keeps_waiting_after_a_reject() {
    let (table, mut bus, conn) = connected_fixture(2);
    let l2: L2cap<VecPacket> = L2cap::init();
    let config = Config { credits: 1 };
    assert!(l2.listen(&mut bus, &table, &conn, &config, 0x25).is_ok());
    // A request for a different multiplexer id is rejected...
    let (step, _) = on_evt(&mut bus, 2, ConnEvent::ChSetupRequest { psm: 0x30, cid: 5 });
    match step {
        Step::Pending(Command::ChannelReject { handle, cid, psm }) => {
            assert_eq!(handle, 2);
            assert_eq!(cid, 5);
            assert_eq!(psm, 0x30);
        }
        other => panic!("expected a reject response, got {:?}", other),
    }
    // ...and the listener is still waiting afterwards.
    assert!(portal(&bus, 2).occupied());
    // A request for the listened-for id is accepted.
    let (step, _) = on_evt(&mut bus, 2, ConnEvent::ChSetupRequest { psm: 0x25, cid: 6 });
    match step {
        Step::Pending(Command::ChannelAccept { handle, cid, psm, rx_mps, rx_mtu }) => {
            assert_eq!(handle, 2);
            assert_eq!(cid, 6);
            assert_eq!(psm, 0x25);
            assert_eq!(rx_mps, 247);
            assert_eq!(rx_mtu, 247);
        }
        other => panic!("expected an accept response, got {:?}", other),
    }
    match l2.listen_setup_result(&mut bus, &conn, Ok(())) {
        ble_link::l2cap::ListenProgress::Done(Ok((psm, cid))) => {
            assert_eq!(psm, 0x25);
            assert_eq!(cid, 6);
        }
        other => panic!("expected the listen to resolve, got {:?}", other),
    }
    let ch = l2.setup_finish(&conn, Ok(6)).expect("channel");
    assert_eq!(ch.connection().handle, 2);
}

#[test]
fn listener_with_any_filter_pushes_credits_after_accepting() {
    let (table, mut bus, conn) = connected_fixture(0);
    let l2: L2cap<VecPacket> = L2cap::init();
    let config = Config { credits: 8 };
    assert!(l2.listen_with(&mut bus, &table, &conn, &config, PsmFilter::Any).is_ok());
    let (step, _) = on_evt(&mut bus, 0, ConnEvent::ChSetupRequest { psm: 0x11, cid: 3 });
    assert!(matches!(step, Step::Pending(Command::ChannelAccept { .. })));
    match l2.listen_setup_result(&mut bus, &conn, Ok(())) {
        ble_link::l2cap::ListenProgress::More(Command::FlowControl { credits, .. }) => {
            assert_eq!(credits, 8);
        }
        other => panic!("expected a credit top-up, got {:?}", other),
    }
    assert_eq!(l2.listen_credits_result(&mut bus, &conn, Ok(())), Ok((0x11, 3)));
}

#[test]
fn wait_once_resolves_exactly_once_and_clears_its_slot() {
    let (table, mut bus, conn) = connected_fixture(1);
    let l2: L2cap<VecPacket> = L2cap::init();
    let config = Config { credits: 1 };
    let _cmd = l2.setup_begin(&bus, &table, &conn, 0x25).expect("setup command");
    assert!(l2.setup_issued(&mut bus, &conn, 7, Ok(()), &config).is_ok());
    let (step, _) = on_evt(&mut bus, 1, ConnEvent::ChSetup { cid: 7 });
    assert!(matches!(step, Step::SetupDone(Ok(7))));
    // The slot was cleared before control returned: the same event again
    // resolves nothing and is dropped.
    let (step, _) = on_evt(&mut bus, 1, ConnEvent::ChSetup { cid: 7 });
    assert!(matches!(step, Step::Dropped));
}

#[test]
fn try_tx_on_full_queue_returns_the_buffer_byte_for_byte() {
    let (table, _bus, ch) = channel_fixture(1, 0x40);
    let pkt = VecPacket::from_bytes(vec![0xde, 0xad, 0xbe, 0xef]);
    let att = ch.try_tx_begin(&table, pkt).expect("attempt");
    assert_eq!(att.handle, 1);
    assert_eq!(att.cid, 0x40);
    assert_eq!(att.sdu, vec![0xde, 0xad, 0xbe, 0xef]);
    // The controller reports no queue space: the original buffer comes back
    // unconsumed, and no further command is issued.
    match Channel::<VecPacket>::try_tx_end(att, Err(RawError::Resources)) {
        Err(TxError::TxQueueFull(p)) => {
            assert_eq!(p.into_bytes(), vec![0xde, 0xad, 0xbe, 0xef]);
        }
        other => panic!("expected the buffer back, got {:?}", other),
    }
}

#[test]
fn try_tx_fatal_rejection_reclaims_and_drops_the_buffer() {
    let (table, _bus, ch) = channel_fixture(1, 0x40);
    let pkt = VecPacket::from_bytes(vec![1]);
    let att = ch.try_tx_begin(&table, pkt).expect("attempt");
    match Channel::<VecPacket>::try_tx_end(att, Err(RawError::Other(7))) {
        Err(TxError::Raw(e)) => assert_eq!(e, RawError::Other(7)),
        other => panic!("expected a raw failure, got {:?}", other),
    }
}

#[test]
fn try_tx_accepted_consumes_the_buffer() {
    let (table, _bus, ch) = channel_fixture(1, 0x40);
    let pkt = VecPacket::from_bytes(vec![5, 6]);
    let att = ch.try_tx_begin(&table, pkt).expect("attempt");
    assert!(Channel::<VecPacket>::try_tx_end(att, Ok(())).is_ok());
}

#[test]
fn try_tx_on_dead_connection_fails_fast() {
    let table = ConnTable::new();
    let conn = Connection::new(1);
    let l2: L2cap<VecPacket> = L2cap::init();
    let ch = l2.setup_finish(&conn, Ok(0x40)).expect("channel");
    let pkt = VecPacket::from_bytes(vec![1]);
    assert!(matches!(
        ch.try_tx_begin(&table, pkt),
        Err(TxError::Disconnected)
    ));
}

#[test]
fn tx_succeeds_once_a_transmit_completed_event_arrives() {
    let (mut table, mut bus, ch) = channel_fixture(1, 0x40);
    let pkt = VecPacket::from_bytes(vec![9]);
    let script = vec![
        TxTurn::Full(WakeKind::TxDone),
        TxTurn::Full(WakeKind::TxDone),
        TxTurn::Accepted,
    ];
    assert!(ch.tx(&mut table, &mut bus, pkt, &script).is_ok());
}

#[test]
fn tx_propagates_a_disconnect_instead_of_looping() {
    let (mut table, mut bus, ch) = channel_fixture(1, 0x40);
    let pkt = VecPacket::from_bytes(vec![9]);
    let script = vec![
        TxTurn::Full(WakeKind::TxDone),
        TxTurn::Full(WakeKind::Disconnected),
        TxTurn::Accepted,
    ];
    assert!(matches!(
        ch.tx(&mut table, &mut bus, pkt, &script),
        Err(TxError::Disconnected)
    ));
}

#[test]
fn tx_with_an_exhausted_budget_returns_the_buffer() {
    let (mut table, mut bus, ch) = channel_fixture(1, 0x40);
    let pkt = VecPacket::from_bytes(vec![3, 1, 4]);
    let script = vec![TxTurn::Full(WakeKind::TxDone)];
    match ch.tx(&mut table, &mut bus, pkt, &script) {
        Err(TxError::TxQueueFull(p)) => assert_eq!(p.into_bytes(), vec![3, 1, 4]),
        other => panic!("expected the buffer back, got {:?}", other),
    }
}

#[test]
fn tx_outright_rejection_surfaces_the_status() {
    let (mut table, mut bus, ch) = channel_fixture(1, 0x40);
    let pkt = VecPacket::from_bytes(vec![9]);
    let script = vec![TxTurn::Fatal(RawError::Other(11))];
    assert!(matches!(
        ch.tx(&mut table, &mut bus, pkt, &script),
        Err(TxError::Raw(RawError::Other(11)))
    ));
}

#[test]
fn rx_disconnect_before_data_never_hands_out_the_buffer() {
    let (table, mut bus, ch) = channel_fixture(1, 0x40);
    let cmd = ch.rx_begin(&table).expect("receive command");
    match cmd {
        Command::ChannelRx { handle, cid, cap } => {
            assert_eq!(handle, 1);
            assert_eq!(cid, 0x40);
            assert_eq!(cap, 247);
        }
        other => panic!("expected a receive command, got {:?}", other),
    }
    assert!(ch.rx_issued(&mut bus, Ok(())).is_ok());
    // A disconnect arrives before any receive-complete event.
    let (step, _) = on_evt(&mut bus, 1, ConnEvent::Disconnected);
    let res = match step {
        Step::RxDone(res) => res,
        other => panic!("expected the receive to resolve, got {:?}", other),
    };
    assert_eq!(res, Err(RxError::Disconnected));
    assert_eq!(ch.rx_finish(res).unwrap_err(), RxError::Disconnected);
}

#[test]
fn rx_delivers_the_filled_buffer() {
    let (table, mut bus, ch) = channel_fixture(1, 0x40);
    let _cmd = ch.rx_begin(&table).expect("receive command");
    assert!(ch.rx_issued(&mut bus, Ok(())).is_ok());
    // A credit notification does not satisfy the waiter.
    let (step, _) = on_evt(&mut bus, 1, ConnEvent::ChCredit);
    assert!(matches!(step, Step::Dropped));
    assert!(portal(&bus, 1).occupied());
    let (step, _) = on_evt(&mut bus, 1, ConnEvent::ChRx { cid: 0x40, sdu: vec![7, 8, 9] });
    let res = match step {
        Step::RxDone(res) => res,
        other => panic!("expected the receive to resolve, got {:?}", other),
    };
    let pkt = ch.rx_finish(res).expect("packet");
    assert_eq!(pkt.into_bytes(), vec![7, 8, 9]);
}

#[test]
fn rx_allocation_failure_is_its_own_outcome() {
    let mut table = ConnTable::new();
    table.on_connected(1);
    let conn = Connection::new(1);
    let l2: L2cap<ExhaustedPacket> = L2cap::init();
    let ch = l2.setup_finish(&conn, Ok(0x40)).expect("channel");
    assert_eq!(ch.rx_begin(&table).unwrap_err(), RxError::AllocateFailed);
}

#[test]
fn rx_rejected_by_controller_surfaces_the_status() {
    let (_table, mut bus, ch) = channel_fixture(1, 0x40);
    assert_eq!(
        ch.rx_issued(&mut bus, Err(RawError::Other(2))).unwrap_err(),
        RxError::Raw(RawError::Other(2)),
    );
    assert!(!portal(&bus, 1).occupied());
}

#[test]
fn buffer_release_notifications_bypass_the_portals() {
    let (_table, mut bus, ch) = channel_fixture(1, 0x40);
    let _ = &ch;
    let (step, freed) = on_evt(&mut bus, 1, ConnEvent::ChSduBufReleased);
    assert!(matches!(step, Step::Dropped));
    assert!(freed);
    // A transmit-completed event with nobody waiting still frees the buffer.
    let (step, freed) = on_evt(&mut bus, 1, ConnEvent::ChTx { cid: 0x40 });
    assert!(matches!(step, Step::Dropped));
    assert!(freed);
}

#[test]
fn credit_workaround_refills_only_below_the_low_mark() {
    assert!(matches!(credit_query(1, 2), Command::FlowControlQuery { handle: 1, cid: 2 }));
    assert!(credit_hack_refill(1, 2, 2000).is_empty());
    let cmds = credit_hack_refill(1, 2, 1024);
    assert_eq!(cmds.len(), 2);
    match &cmds[0] {
        Command::FlowControl { credits, .. } => assert_eq!(*credits, 0xFFFF),
        other => panic!("expected a credit grant, got {:?}", other),
    }
    match &cmds[1] {
        Command::FlowControl { credits, .. } => assert_eq!(*credits, 0),
        other => panic!("expected a credit grant, got {:?}", other),
    }
}

#[test]
fn packet_mtu_is_fixed() {
    assert_eq!(VecPacket::mtu(), 247);
    let p = VecPacket::allocate().expect("heap allocation");
    assert_eq!(p.into_bytes(), Vec::<u8>::new());
    assert!(ExhaustedPacket::allocate().is_none());
}
