//! Commands issued to the radio controller, and their parameter records.
//!
//! The verified core never talks to the controller itself: it decides which
//! command to issue and hands the command back to the runtime as a value.
//! Each command gets an immediate accept/reject status from the controller,
//! which the runtime feeds back into the decision functions.

use vstd::prelude::*;

verus! {

/// PHY preference: let the controller choose.
pub const PHY_AUTO: u8 = 0;
/// PHY preference bit: 1 Mbps.
pub const PHY_1MBPS: u8 = 1;
/// Scanner filter policy: accept all advertisers.
pub const FILTER_ACCEPT_ALL: u8 = 0;
/// Scan timeout value meaning "scan until stopped".
pub const SCAN_TIMEOUT_UNLIMITED: u16 = 0;
/// Default scan interval, in units of 625 us.
pub const SCAN_INTERVAL_DEFAULT: u16 = 2732;
/// Default scan window, in units of 625 us.
pub const SCAN_WINDOW_DEFAULT: u16 = 500;

/// Peer device address.
#[derive(Clone, Copy, Debug)]
pub struct Address {
    /// Address type discriminator (public, random, ...), carried opaquely.
    pub addr_type: u8,
    pub addr: [u8; 6],
}

/// Scanner parameters handed to the controller for scanning or connecting.
#[derive(Clone, Copy, Debug, PartialEq, Eq, Structural)]
pub struct ScanParams {
    pub extended: bool,
    pub active: bool,
    pub scan_phys: u8,
    pub filter_policy: u8,
    pub timeout: u16,
    pub interval: u16,
    pub window: u16,
}

/// Connection timing parameters requested for a new connection.
#[derive(Clone, Copy, Debug, PartialEq, Eq, Structural)]
pub struct ConnParams {
    pub min_conn_interval: u16,
    pub max_conn_interval: u16,
    pub slave_latency: u16,
    pub conn_sup_timeout: u16,
}

/// The scan parameters every scan and connect attempt uses.
pub open spec fn scan_params_default_spec(filter_policy: u8) -> ScanParams {
    ScanParams {
        extended: true,
        active: true,
        scan_phys: PHY_1MBPS,
        filter_policy,
        timeout: SCAN_TIMEOUT_UNLIMITED,
        interval: SCAN_INTERVAL_DEFAULT,
        window: SCAN_WINDOW_DEFAULT,
    }
}

/// Builds the default scan parameters: extended active scanning on the
/// 1 Mbps PHY, unlimited timeout, default interval and window.
pub fn scan_params_default(filter_policy: u8) -> (p: ScanParams)
    ensures
        p == scan_params_default_spec(filter_policy),
{
    ScanParams {
        extended: true,
        active: true,
        scan_phys: PHY_1MBPS,
        filter_policy,
        timeout: SCAN_TIMEOUT_UNLIMITED,
        interval: SCAN_INTERVAL_DEFAULT,
        window: SCAN_WINDOW_DEFAULT,
    }
}

/// One command to the radio controller. Issuing it returns an immediate
/// accept/reject status; the asynchronous outcome arrives later as an event.
#[derive(Clone, Debug)]
pub enum Command {
    /// Start connecting to `addr`, scanning with `scan` and requesting the
    /// timing in `conn`.
    Connect { addr: Address, scan: ScanParams, conn: ConnParams },
    /// Abort an in-flight connect attempt.
    CancelConnect,
    /// Start scanning with the given parameters.
    ScanStart { scan: ScanParams },
    /// Resume a running scan after an advertisement report was consumed.
    ScanResume,
    /// Stop the scanner.
    ScanStop,
    /// Begin an MTU exchange on a newly established connection.
    AttMtuExchange { handle: u16, mtu: u16 },
    /// Initiator side: request a channel for `psm` on connection `handle`.
    ChannelSetup { handle: u16, psm: u16, rx_mps: u16, rx_mtu: u16 },
    /// Responder side: accept the setup request `cid` for `psm`.
    ChannelAccept { handle: u16, cid: u16, psm: u16, rx_mps: u16, rx_mtu: u16 },
    /// Responder side: reject the setup request `cid` for `psm`.
    ChannelReject { handle: u16, cid: u16, psm: u16 },
    /// Grant the peer `credits` receive credits on the channel.
    FlowControl { handle: u16, cid: u16, credits: u16 },
    /// Ask the controller how many credits the peer currently has.
    FlowControlQuery { handle: u16, cid: u16 },
    /// Queue `sdu` for transmission on the channel.
    ChannelTx { handle: u16, cid: u16, sdu: Vec<u8> },
    /// Hand the controller a receive buffer of capacity `cap` for the channel.
    ChannelRx { handle: u16, cid: u16, cap: u16 },
}

} // verus!
