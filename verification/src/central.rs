//! Central operations: connection establishment and scanning.
//!
//! Both are single-in-flight state machines built on a single-slot wait: the
//! task issues a command, arms a compensating drop-guard, suspends, and is
//! later resumed by the dispatch path with a typed result. The runtime
//! performs each returned command and feeds its immediate status, and every
//! resolution event, back into the step functions here.

use vstd::prelude::*;
use crate::RawError;
use crate::cmd::Address;
use crate::cmd::Command;
use crate::cmd::ConnParams;
use crate::cmd::FILTER_ACCEPT_ALL;
use crate::cmd::PHY_AUTO;
use crate::cmd::ScanParams;
use crate::cmd::scan_params_default;
use crate::cmd::scan_params_default_spec;
use crate::conn::ConnTable;
use crate::conn::Connection;
use crate::conn::ConnectionState;
use crate::conn::LinkEvent;
use crate::conn::apply_link_event;
use crate::CONNS_MAX;

verus! {

/// Why a connect attempt failed.
#[derive(Clone, Copy, Debug, PartialEq, Eq, Structural)]
pub enum ConnectError {
    /// The attempt timed out before the peer was reached.
    Timeout,
    /// The controller rejected a command with this status.
    Raw(RawError),
}

impl From<RawError> for ConnectError {
    fn from(err: RawError) -> (r: Self) {
        ConnectError::Raw(err)
    }
}

impl vstd::std_specs::convert::FromSpecImpl<RawError> for ConnectError {
    open spec fn obeys_from_spec() -> bool {
        true
    }

    open spec fn from_spec(err: RawError) -> Self {
        ConnectError::Raw(err)
    }
}

/// Configuration for connection establishment.
#[derive(Clone, Copy, Debug)]
pub struct Config {
    /// Requested ATT MTU for the next connection; `None` leaves the system
    /// default in place.
    pub att_mtu: Option<u16>,
    /// Desired transmit PHY bitmask.
    pub tx_phys: u8,
    /// Desired receive PHY bitmask.
    pub rx_phys: u8,
    /// Requested connection timing.
    pub conn_params: ConnParams,
}

impl Default for Config {
    /// Documented defaults: automatic PHY choice, connection interval
    /// 40..200 units, no slave latency, 400-unit (4 s) supervision timeout.
    fn default() -> (c: Self)
        ensures
            c.att_mtu is None,
            c.tx_phys == PHY_AUTO,
            c.rx_phys == PHY_AUTO,
            c.conn_params == (ConnParams {
                min_conn_interval: 40u16,
                max_conn_interval: 200u16,
                slave_latency: 0u16,
                conn_sup_timeout: 400u16,
            }),
    {
        Config {
            att_mtu: None,
            tx_phys: PHY_AUTO,
            rx_phys: PHY_AUTO,
            conn_params: ConnParams {
                min_conn_interval: 40,
                max_conn_interval: 200,
                slave_latency: 0,
                conn_sup_timeout: 400,
            },
        }
    }
}

/// Where a connect attempt stands.
#[derive(Clone, Copy, Debug, PartialEq, Eq, Structural)]
pub enum ConnectPhase {
    /// No attempt in flight.
    Idle,
    /// The connect command was handed to the runtime; its immediate status is
    /// still outstanding.
    Issued,
    /// The command was accepted; the task is suspended on the connect slot
    /// and the cancel-connect drop-guard is armed.
    Waiting,
}

/// The single-in-flight connection establishment state machine. The single
/// slot is what enforces one attempt at a time.
pub struct ConnectOp {
    phase: ConnectPhase,
}

/// What abandoning a connect attempt does: exactly one cancel-connect command
/// while the guard is armed, none once it was defused or never armed.
pub open spec fn spec_connect_abandon(phase: ConnectPhase) -> (ConnectPhase, Option<Command>) {
    if phase is Waiting {
        (ConnectPhase::Idle, Some(Command::CancelConnect))
    } else {
        (phase, None::<Command>)
    }
}

impl ConnectOp {
    /// Current phase of the attempt.
    pub closed spec fn phase(self) -> ConnectPhase {
        self.phase
    }

    pub fn new() -> (op: Self)
        ensures
            op.phase() == ConnectPhase::Idle,
    {
        ConnectOp { phase: ConnectPhase::Idle }
    }

    /// Validates the peer list and builds the connect command from the
    /// configuration and the documented default scan parameters.
    ///
    /// A whitelist that is empty, or holds more than one address, is a caller
    /// defect (multi-address whitelists are out of scope), so exactly one
    /// address is required.
    pub fn start(&mut self, whitelist: &Vec<Address>, config: &Config) -> (cmd: Command)
        requires
            old(self).phase() == ConnectPhase::Idle,
            whitelist@.len() == 1,
        ensures
            final(self).phase() == ConnectPhase::Issued,
            cmd matches Command::Connect { addr, scan, conn }
                && addr == whitelist@[0]
                && scan == scan_params_default_spec(FILTER_ACCEPT_ALL)
                && conn == config.conn_params,
    {
        self.phase = ConnectPhase::Issued;
        Command::Connect {
            addr: whitelist[0],
            scan: scan_params_default(FILTER_ACCEPT_ALL),
            conn: config.conn_params,
        }
    }

    /// Feeds back the controller's immediate status for the connect command.
    /// A rejection surfaces as a typed failure and the attempt terminates
    /// without waiting; acceptance arms the drop-guard and suspends.
    pub fn issued(&mut self, status: Result<(), RawError>) -> (r: Result<(), ConnectError>)
        requires
            old(self).phase() == ConnectPhase::Issued,
        ensures
            status is Ok ==> r is Ok && final(self).phase() == ConnectPhase::Waiting,
            status matches Err(e) ==> r == Err::<(), ConnectError>(ConnectError::Raw(e))
                && final(self).phase() == ConnectPhase::Idle,
    {
        match status {
            Ok(()) => {
                self.phase = ConnectPhase::Waiting;
                Ok(())
            }
            Err(e) => {
                self.phase = ConnectPhase::Idle;
                Err(ConnectError::Raw(e))
            }
        }
    }

    /// Resolution of the suspended attempt, delivered by the dispatch path.
    ///
    /// On success the connection record becomes live with the configured PHY
    /// preferences recorded, the guard is defused, and the caller gets the
    /// new connection. On failure the attempt terminates, and the still-armed
    /// guard fires: the second component carries the one cancel-connect
    /// command the runtime must issue.
    pub fn on_result(
        &mut self,
        table: &mut ConnTable,
        config: &Config,
        res: Result<u16, ConnectError>,
    ) -> (r: (Result<Connection, ConnectError>, Option<Command>))
        requires
            old(self).phase() == ConnectPhase::Waiting,
            old(table).wf(),
            res matches Ok(h) ==> (h as int) < CONNS_MAX as int,
        ensures
            final(self).phase() == ConnectPhase::Idle,
            final(table).wf(),
            res matches Ok(h) ==> {
                &&& r.0 matches Ok(c) && c.handle == h && c.wf()
                &&& r.1 is None
                &&& final(table)@ == apply_link_event(old(table)@, LinkEvent::Connected(h)).update(
                    h as int,
                    ConnectionState {
                        tx_phys: config.rx_phys,
                        rx_phys: config.tx_phys,
                        ..ConnectionState::fresh_spec(h)
                    },
                )
            },
            res matches Err(e) ==> r.0 == Err::<Connection, ConnectError>(e)
                && r.1 == Some(Command::CancelConnect)
                && final(table)@ == old(table)@,
    {
        self.phase = ConnectPhase::Idle;
        match res {
            Ok(h) => {
                table.on_connected(h);
                let conn = Connection::new(h);
                // The peer's transmit side is our receive side and vice
                // versa, so the fields cross over here.
                table.set_phys(&conn, config.rx_phys, config.tx_phys);
                proof {
                    assert(table@ =~= apply_link_event(
                        old(table)@,
                        LinkEvent::Connected(h),
                    ).update(
                        h as int,
                        ConnectionState {
                            tx_phys: config.rx_phys,
                            rx_phys: config.tx_phys,
                            ..ConnectionState::fresh_spec(h)
                        },
                    ));
                }
                (Ok(conn), None)
            }
            Err(e) => (Err(e), Some(Command::CancelConnect)),
        }
    }

    /// The follow-up MTU exchange on the fresh connection, when a data
    /// negotiation layer is present. Its failure never unwinds the
    /// connection: the runtime may surface a warning and nothing more.
    pub fn mtu_exchange(conn: &Connection, config: &Config, sys_att_mtu: u16) -> (cmd: Command)
        ensures
            cmd matches Command::AttMtuExchange { handle, mtu }
                && handle == conn.handle
                && mtu == (match config.att_mtu {
                    Some(m) => m,
                    None => sys_att_mtu,
                }),
    {
        let mtu = match config.att_mtu {
            Some(m) => m,
            None => sys_att_mtu,
        };
        Command::AttMtuExchange { handle: conn.handle, mtu }
    }

    /// The compensating action of the drop-guard: run when the suspended
    /// task is abandoned before its resolution. Issues exactly one
    /// cancel-connect command if (and only if) the guard is still armed, so
    /// the hardware does not keep connecting for a vanished caller.
    pub fn abandon(&mut self) -> (cmd: Option<Command>)
        ensures
            (final(self).phase(), cmd) == spec_connect_abandon(old(self).phase()),
    {
        match self.phase {
            ConnectPhase::Waiting => {
                self.phase = ConnectPhase::Idle;
                Some(Command::CancelConnect)
            }
            _ => None,
        }
    }
}

/// Outcome of a best-effort cancel of connection establishment.
#[derive(Clone, Copy, Debug, PartialEq, Eq, Structural)]
pub enum StopOutcome {
    /// The attempt was cancelled.
    Stopped,
    /// Nothing was in flight to cancel: a distinct, non-fatal outcome.
    NotConnecting,
    /// The controller rejected the cancel with some other status.
    Failed(RawError),
}

/// Best-effort cancel of connection establishment: the command to issue.
/// Feed the controller's status to `connect_stop_result`.
pub fn connect_stop() -> (cmd: Command)
    ensures
        cmd == Command::CancelConnect,
{
    Command::CancelConnect
}

/// Reads the status of the cancel command, telling "nothing to cancel"
/// (the controller was not connecting) apart from real rejections.
pub fn connect_stop_result(status: Result<(), RawError>) -> (r: StopOutcome)
    ensures
        status is Ok ==> r == StopOutcome::Stopped,
        status == Err::<(), RawError>(RawError::InvalidState) ==> r == StopOutcome::NotConnecting,
        status matches Err(e) ==> (e == RawError::InvalidState || r == StopOutcome::Failed(e)),
{
    match status {
        Ok(()) => StopOutcome::Stopped,
        Err(RawError::InvalidState) => StopOutcome::NotConnecting,
        Err(e) => StopOutcome::Failed(e),
    }
}

/// Abandoning an attempt fires the guard at most once: a second abandonment
/// right after one finds the guard disarmed and issues no further command.
pub proof fn lemma_abandon_cancels_exactly_once(phase: ConnectPhase)
    ensures
        spec_connect_abandon(spec_connect_abandon(phase).0).1 is None,
        phase is Waiting ==> spec_connect_abandon(phase).1 == Some(Command::CancelConnect),
        !(phase is Waiting) ==> spec_connect_abandon(phase).1 is None,
{
}

/// Why a scan failed.
#[derive(Clone, Copy, Debug, PartialEq, Eq, Structural)]
pub enum ScanError {
    /// The scanner reported a timeout.
    Timeout,
    /// The controller rejected a command with this status.
    Raw(RawError),
}

impl From<RawError> for ScanError {
    fn from(err: RawError) -> (r: Self) {
        ScanError::Raw(err)
    }
}

impl vstd::std_specs::convert::FromSpecImpl<RawError> for ScanError {
    open spec fn obeys_from_spec() -> bool {
        true
    }

    open spec fn from_spec(err: RawError) -> Self {
        ScanError::Raw(err)
    }
}

/// Configuration for scanning.
#[derive(Clone, Debug)]
pub struct ScanConfig {
    /// Peers to restrict the scan to; `None` accepts every advertiser.
    pub whitelist: Option<Vec<Address>>,
}

impl Default for ScanConfig {
    fn default() -> (c: Self)
        ensures
            c.whitelist is None,
    {
        ScanConfig { whitelist: None }
    }
}

/// One advertisement record delivered by the scanner.
#[derive(Clone, Debug)]
pub struct AdvReport {
    pub peer: Address,
    pub rssi: i8,
    pub data: Vec<u8>,
}

/// A connection-less message delivered to the global scan portal.
#[derive(Clone, Debug)]
pub enum ScanEvent {
    /// The scanner gave up.
    Timeout,
    /// One advertisement arrived.
    AdvReport(AdvReport),
}

/// Where a scan stands.
#[derive(Clone, Copy, Debug, PartialEq, Eq, Structural)]
pub enum ScanPhase {
    /// No scan in flight.
    Idle,
    /// The start command was handed to the runtime; status outstanding.
    Issued,
    /// Scanning; the task is suspended on the global scan portal and the
    /// stop-scan drop-guard is armed.
    Waiting,
}

/// The scanning state machine. Advertisement reports are funneled through the
/// one global (connection-less) portal, so one scan runs at a time.
pub struct ScanOp {
    phase: ScanPhase,
}

/// What one scan event does to the suspended scan: a timeout resolves it with
/// a failure (and the guard fires, stopping the scanner); a report is handed
/// to the caller's accumulator, which decides whether to finish or resume.
#[derive(Clone, Debug)]
pub enum ScanStep {
    /// Nothing was waiting: the event is dropped.
    Dropped,
    /// The scan resolved with this failure; issue the command (the fired
    /// stop-scan guard) alongside.
    Failed(ScanError, Command),
    /// A report for the caller's accumulator. The scan keeps waiting until
    /// the caller either finishes or resumes it.
    Report(AdvReport),
}

impl ScanOp {
    /// Current phase of the scan.
    pub closed spec fn phase(self) -> ScanPhase {
        self.phase
    }

    pub fn new() -> (op: Self)
        ensures
            op.phase() == ScanPhase::Idle,
    {
        ScanOp { phase: ScanPhase::Idle }
    }

    /// Builds the scan-start command with the documented default parameters.
    pub fn start(&mut self, _config: &ScanConfig) -> (cmd: Command)
        requires
            old(self).phase() == ScanPhase::Idle,
        ensures
            final(self).phase() == ScanPhase::Issued,
            cmd matches Command::ScanStart { scan }
                && scan == scan_params_default_spec(FILTER_ACCEPT_ALL),
    {
        self.phase = ScanPhase::Issued;
        Command::ScanStart { scan: scan_params_default(FILTER_ACCEPT_ALL) }
    }

    /// Feeds back the controller's immediate status for the start command.
    /// A rejection surfaces as a typed failure; acceptance arms the stop-scan
    /// drop-guard and suspends on the global portal.
    pub fn issued(&mut self, status: Result<(), RawError>) -> (r: Result<(), ScanError>)
        requires
            old(self).phase() == ScanPhase::Issued,
        ensures
            status is Ok ==> r is Ok && final(self).phase() == ScanPhase::Waiting,
            status matches Err(e) ==> r == Err::<(), ScanError>(ScanError::Raw(e))
                && final(self).phase() == ScanPhase::Idle,
    {
        match status {
            Ok(()) => {
                self.phase = ScanPhase::Waiting;
                Ok(())
            }
            Err(e) => {
                self.phase = ScanPhase::Idle;
                Err(ScanError::Raw(e))
            }
        }
    }

    /// Dispatch of one connection-less event to the scan portal.
    pub fn on_event(&mut self, evt: ScanEvent) -> (r: ScanStep)
        ensures
            old(self).phase() != ScanPhase::Waiting ==> r is Dropped
                && final(self).phase() == old(self).phase(),
            old(self).phase() == ScanPhase::Waiting ==> match evt {
                ScanEvent::Timeout => r == ScanStep::Failed(ScanError::Timeout, Command::ScanStop)
                    && final(self).phase() == ScanPhase::Idle,
                ScanEvent::AdvReport(rep) => r == ScanStep::Report(rep)
                    && final(self).phase() == ScanPhase::Waiting,
            },
    {
        if !matches!(self.phase, ScanPhase::Waiting) {
            return ScanStep::Dropped;
        }
        match evt {
            ScanEvent::Timeout => {
                self.phase = ScanPhase::Idle;
                ScanStep::Failed(ScanError::Timeout, Command::ScanStop)
            }
            ScanEvent::AdvReport(rep) => ScanStep::Report(rep),
        }
    }

    /// The caller's accumulator kept the report and wants to keep scanning:
    /// the scanner is restarted with this command. Feed its status to
    /// `resume_result`.
    pub fn resume(&self) -> (cmd: Command)
        requires
            self.phase() == ScanPhase::Waiting,
        ensures
            cmd == Command::ScanResume,
    {
        Command::ScanResume
    }

    /// Status of the restart command. A rejection resolves the scan with a
    /// typed failure and fires the stop-scan guard.
    pub fn resume_result(&mut self, status: Result<(), RawError>) -> (r: Result<
        (),
        (ScanError, Command),
    >)
        requires
            old(self).phase() == ScanPhase::Waiting,
        ensures
            status is Ok ==> r is Ok && final(self).phase() == ScanPhase::Waiting,
            status matches Err(e) ==> r == Err::<(), (ScanError, Command)>(
                (ScanError::Raw(e), Command::ScanStop),
            ) && final(self).phase() == ScanPhase::Idle,
    {
        match status {
            Ok(()) => Ok(()),
            Err(e) => {
                self.phase = ScanPhase::Idle;
                Err((ScanError::Raw(e), Command::ScanStop))
            }
        }
    }

    /// The accumulator produced the scan's final result: the wait ends, and
    /// the guard fires on the way out, stopping the scanner.
    pub fn finish(&mut self) -> (cmd: Command)
        requires
            old(self).phase() == ScanPhase::Waiting,
        ensures
            final(self).phase() == ScanPhase::Idle,
            cmd == Command::ScanStop,
    {
        self.phase = ScanPhase::Idle;
        Command::ScanStop
    }

    /// The compensating action of the drop-guard: abandoning the suspended
    /// scan issues exactly one stop-scan command; an idle scan issues none.
    pub fn abandon(&mut self) -> (cmd: Option<Command>)
        ensures
            old(self).phase() == ScanPhase::Waiting ==> cmd == Some(Command::ScanStop)
                && final(self).phase() == ScanPhase::Idle,
            old(self).phase() != ScanPhase::Waiting ==> cmd is None
                && final(self).phase() == old(self).phase(),
    {
        match self.phase {
            ScanPhase::Waiting => {
                self.phase = ScanPhase::Idle;
                Some(Command::ScanStop)
            }
            _ => None,
        }
    }
}

} // verus!
