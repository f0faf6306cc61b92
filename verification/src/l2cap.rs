//! Credit-flow-controlled channels: setup handshake, transmit with
//! queue-full backpressure, and receive with caller-supplied buffer
//! allocation.
//!
//! Every operation follows the same shape: check the connection is live,
//! hand a command back to the runtime, feed the controller's immediate
//! status into the matching `*_issued`/`*_result` function, and let the
//! dispatch path (`bus::on_evt`) resolve the suspended wait when the
//! asynchronous outcome arrives.

use core::marker::PhantomData;
use vstd::prelude::*;
use crate::DisconnectedError;
use crate::RawError;
use crate::bus::Bus;
use crate::bus::ConnEvent;
use crate::bus::PsmFilter;
use crate::bus::Waiter;
use crate::bus::on_evt;
use crate::cmd::Command;
use crate::conn::ConnTable;
use crate::conn::Connection;
use crate::conn::LinkEvent;
use crate::conn::apply_link_event;

verus! {

/// Why a transmit failed. `TxQueueFull` is recoverable backpressure and
/// hands the unconsumed buffer back to the caller.
#[derive(Debug, Clone, Copy, PartialEq, Eq)]
pub enum TxError<P: Packet> {
    /// The connection is not live.
    Disconnected,
    /// No transmit credit was available; the original buffer comes back
    /// unconsumed.
    TxQueueFull(P),
    /// The controller rejected the command with this status; the buffer was
    /// reclaimed and dropped.
    Raw(RawError),
}

impl<P: Packet> From<DisconnectedError> for TxError<P> {
    fn from(_err: DisconnectedError) -> (r: Self) {
        TxError::Disconnected
    }
}

impl<P: Packet> vstd::std_specs::convert::FromSpecImpl<DisconnectedError> for TxError<P> {
    open spec fn obeys_from_spec() -> bool {
        true
    }

    open spec fn from_spec(_err: DisconnectedError) -> Self {
        TxError::Disconnected
    }
}

impl<P: Packet> From<RawError> for TxError<P> {
    fn from(err: RawError) -> (r: Self) {
        TxError::Raw(err)
    }
}

impl<P: Packet> vstd::std_specs::convert::FromSpecImpl<RawError> for TxError<P> {
    open spec fn obeys_from_spec() -> bool {
        true
    }

    open spec fn from_spec(err: RawError) -> Self {
        TxError::Raw(err)
    }
}

/// Why a receive failed.
#[derive(Debug, Clone, Copy, PartialEq, Eq, Structural)]
pub enum RxError {
    /// The connection dropped or the channel was released before a receive
    /// completed.
    Disconnected,
    /// The caller-supplied allocator could not provide a receive buffer.
    AllocateFailed,
    /// The controller rejected the command with this status.
    Raw(RawError),
}

impl From<DisconnectedError> for RxError {
    fn from(_err: DisconnectedError) -> (r: Self) {
        RxError::Disconnected
    }
}

impl vstd::std_specs::convert::FromSpecImpl<DisconnectedError> for RxError {
    open spec fn obeys_from_spec() -> bool {
        true
    }

    open spec fn from_spec(_err: DisconnectedError) -> Self {
        RxError::Disconnected
    }
}

impl From<RawError> for RxError {
    fn from(err: RawError) -> (r: Self) {
        RxError::Raw(err)
    }
}

impl vstd::std_specs::convert::FromSpecImpl<RawError> for RxError {
    open spec fn obeys_from_spec() -> bool {
        true
    }

    open spec fn from_spec(err: RawError) -> Self {
        RxError::Raw(err)
    }
}

/// Why a channel setup failed.
#[derive(Debug, Clone, Copy, PartialEq, Eq, Structural)]
pub enum SetupError {
    /// The connection dropped before the handshake completed.
    Disconnected,
    /// The peer rejected the setup request.
    Refused,
    /// The controller rejected a command with this status.
    Raw(RawError),
}

impl From<DisconnectedError> for SetupError {
    fn from(_err: DisconnectedError) -> (r: Self) {
        SetupError::Disconnected
    }
}

impl vstd::std_specs::convert::FromSpecImpl<DisconnectedError> for SetupError {
    open spec fn obeys_from_spec() -> bool {
        true
    }

    open spec fn from_spec(_err: DisconnectedError) -> Self {
        SetupError::Disconnected
    }
}

impl From<RawError> for SetupError {
    fn from(err: RawError) -> (r: Self) {
        SetupError::Raw(err)
    }
}

impl vstd::std_specs::convert::FromSpecImpl<RawError> for SetupError {
    open spec fn obeys_from_spec() -> bool {
        true
    }

    open spec fn from_spec(err: RawError) -> Self {
        SetupError::Raw(err)
    }
}

/// A `Packet` is a byte buffer for packet data with a fixed capacity,
/// supplied by the application so the driver stays generic over packet
/// memory strategy. A buffer is allocated, decomposed into transferable form
/// when handed to the controller, and reconstructed from that form (plus the
/// actual length) when ownership returns — there is exactly one live owner
/// at all times.
pub trait Packet: Sized {
    /// The fixed capacity of every buffer of this type.
    spec fn mtu_spec() -> usize;

    /// The bytes the buffer currently holds.
    spec fn bytes(&self) -> Seq<u8>;

    /// The capacity as a value: positive, and small enough to travel in a
    /// command's length field.
    fn mtu() -> (r: usize)
        ensures
            r == Self::mtu_spec(),
            0 < r <= 65535,
    ;

    /// Allocate an empty buffer with space for `mtu()` bytes, or fail when
    /// the allocation cannot be fulfilled.
    fn allocate() -> (r: Option<Self>)
        ensures
            r matches Some(p) ==> p.bytes().len() == 0,
    ;

    /// Take ownership of the buffer's contents in transferable form.
    fn into_bytes(self) -> (r: Vec<u8>)
        ensures
            r@ == self.bytes(),
    ;

    /// Reconstruct a buffer from transferable form; `buf` must fit the
    /// capacity.
    fn from_bytes(buf: Vec<u8>) -> (r: Self)
        requires
            buf@.len() <= Self::mtu_spec(),
        ensures
            r.bytes() == buf@,
    ;
}

/// Heap-backed packet buffer with a fixed 247-byte capacity.
#[derive(Debug, Clone, PartialEq, Eq)]
pub struct VecPacket {
    data: Vec<u8>,
}

impl Packet for VecPacket {
    open spec fn mtu_spec() -> usize {
        247
    }

    closed spec fn bytes(&self) -> Seq<u8> {
        self.data@
    }

    fn mtu() -> (r: usize) {
        247
    }

    fn allocate() -> (r: Option<Self>) {
        Some(VecPacket { data: Vec::new() })
    }

    fn into_bytes(self) -> (r: Vec<u8>) {
        self.data
    }

    fn from_bytes(buf: Vec<u8>) -> (r: Self) {
        VecPacket { data: buf }
    }
}

/// Packet strategy whose pool is empty: every allocation fails, so a
/// receive through it reports the allocation-failure outcome.
#[derive(Debug, Clone, PartialEq, Eq)]
pub struct ExhaustedPacket {
    data: Vec<u8>,
}

impl Packet for ExhaustedPacket {
    open spec fn mtu_spec() -> usize {
        247
    }

    closed spec fn bytes(&self) -> Seq<u8> {
        self.data@
    }

    fn mtu() -> (r: usize) {
        247
    }

    fn allocate() -> (r: Option<Self>) {
        None
    }

    fn into_bytes(self) -> (r: Vec<u8>) {
        self.data
    }

    fn from_bytes(buf: Vec<u8>) -> (r: Self) {
        ExhaustedPacket { data: buf }
    }
}

/// Configuration for a flow-controlled channel.
#[derive(Clone, Copy, Debug, PartialEq, Eq, Structural)]
pub struct Config {
    /// Credits the controller keeps the peer topped up to whenever it starts
    /// a new reception buffer. The implicit default is one; any other value
    /// is pushed explicitly after setup.
    pub credits: u16,
}

/// The channel driver; generic over the application's packet strategy.
pub struct L2cap<P: Packet> {
    _packet: PhantomData<P>,
}

/// An established credit-flow-controlled channel: the owning connection and
/// the channel id unique on it.
pub struct Channel<P: Packet> {
    _packet: PhantomData<P>,
    conn: Connection,
    cid: u16,
}

impl<P: Packet> Clone for Channel<P> {
    fn clone(&self) -> (r: Self)
        ensures
            r.connection_view() == self.connection_view(),
            r.cid_spec() == self.cid_spec(),
    {
        Channel { _packet: PhantomData, conn: self.conn, cid: self.cid }
    }
}

impl<P: Packet> Channel<P> {
    /// The owning connection.
    pub closed spec fn connection_view(self) -> Connection {
        self.conn
    }

    /// The channel id on that connection.
    pub closed spec fn cid_spec(self) -> u16 {
        self.cid
    }

    /// A channel is valid when its connection reference is.
    pub open spec fn wf(self) -> bool {
        self.connection_view().wf()
    }

    /// The owning connection's handle.
    pub open spec fn handle_spec(self) -> u16 {
        self.connection_view().handle
    }

    /// Get the underlying connection.
    pub fn connection(&self) -> (r: &Connection)
        ensures
            *r == self.connection_view(),
    {
        &self.conn
    }
}

/// Highest credit count the workaround pushes to the peer.
pub const CREDITS_MAX: u16 = 0xFFFF;
/// Credit level below which the workaround refills.
pub const CREDITS_MIN: u16 = 1024;

/// The query half of the credit workaround: ask the controller how many
/// credits the peer has left on the channel. Feed the answer to
/// `credit_hack_refill`.
pub fn credit_query(handle: u16, cid: u16) -> (cmd: Command)
    ensures
        cmd == (Command::FlowControlQuery { handle, cid }),
{
    Command::FlowControlQuery { handle, cid }
}

/// The decision half of the credit workaround for peers that stall when
/// credits run low: with plenty of credits left nothing is issued; at or
/// below the low mark the peer is topped up to the maximum and control is
/// returned to the default. Failures of these commands are only warned
/// about.
pub fn credit_hack_refill(handle: u16, cid: u16, credits: u16) -> (cmds: Vec<Command>)
    ensures
        credits > CREDITS_MIN ==> cmds@.len() == 0,
        credits <= CREDITS_MIN ==> cmds@.len() == 2
            && cmds@[0] == (Command::FlowControl { handle, cid, credits: CREDITS_MAX })
            && cmds@[1] == (Command::FlowControl { handle, cid, credits: 0u16 }),
{
    let mut cmds: Vec<Command> = Vec::new();
    if credits > CREDITS_MIN {
        // Still enough credits, no need to refill.
        return cmds;
    }
    cmds.push(Command::FlowControl { handle, cid, credits: CREDITS_MAX });
    cmds.push(Command::FlowControl { handle, cid, credits: 0 });
    cmds
}

/// What a listen made of a command status: either another command to issue,
/// or the listen's resolution.
#[derive(Debug)]
pub enum ListenProgress {
    /// Issue this command and feed its status back.
    More(Command),
    /// The listen resolved: the accepted multiplexer id and channel id, or a
    /// typed failure.
    Done(Result<(u16, u16), SetupError>),
}

impl<P: Packet> L2cap<P> {
    /// Initialize the driver. One instance drives all channels of a packet
    /// strategy.
    pub fn init() -> (l: Self) {
        L2cap { _packet: PhantomData }
    }

    /// Initiator setup, first step: checks the connection and builds the
    /// setup command for `psm`, mirroring the packet capacity as the receive
    /// MTU. Fails exactly when the connection is not live.
    pub fn setup_begin(
        &self,
        bus: &Bus,
        table: &ConnTable,
        conn: &Connection,
        psm: u16,
    ) -> (r: Result<Command, SetupError>)
        requires
            bus.wf(),
            table.wf(),
            conn.wf(),
        ensures
            !table@[conn.handle as int].connected ==> (r matches Err(e)
                && e == SetupError::Disconnected),
            table@[conn.handle as int].connected ==> (r matches Ok(cmd) && cmd == (
            Command::ChannelSetup {
                handle: conn.handle,
                psm,
                rx_mps: bus.rx_mps_spec(),
                rx_mtu: P::mtu_spec() as u16,
            })),
    {
        let handle = match table.check_connected(conn) {
            Ok(h) => h,
            Err(_) => {
                return Err(SetupError::Disconnected);
            }
        };
        Ok(Command::ChannelSetup {
            handle,
            psm,
            rx_mps: bus.rx_mps(),
            rx_mtu: P::mtu() as u16,
        })
    }

    /// Initiator setup, second step: the controller's immediate status for
    /// the setup command, and the channel id it assigned. A rejection
    /// surfaces immediately; acceptance suspends on the connection's portal
    /// until the handshake resolves.
    pub fn setup_issued(
        &self,
        bus: &mut Bus,
        conn: &Connection,
        cid: u16,
        status: Result<(), RawError>,
        config: &Config,
    ) -> (r: Result<(), SetupError>)
        requires
            old(bus).wf(),
            conn.wf(),
            old(bus)@[conn.handle as int] is None,
        ensures
            final(bus).wf(),
            final(bus).rx_mps_spec() == old(bus).rx_mps_spec(),
            status matches Err(e) ==> r == Err::<(), SetupError>(SetupError::Raw(e))
                && final(bus)@ == old(bus)@,
            status is Ok ==> r is Ok && final(bus)@ == old(bus)@.update(
                conn.handle as int,
                Some(Waiter::SetupWait { cid, credits: config.credits }),
            ),
    {
        match status {
            Err(e) => Err(SetupError::Raw(e)),
            Ok(()) => {
                let _ = bus.register_waiter(
                    conn.handle,
                    Waiter::SetupWait { cid, credits: config.credits },
                );
                Ok(())
            }
        }
    }

    /// Initiator setup, after the credit top-up command the dispatch path
    /// asked for: its status resolves the setup.
    pub fn setup_credits_result(
        &self,
        bus: &mut Bus,
        conn: &Connection,
        status: Result<(), RawError>,
    ) -> (r: Result<u16, SetupError>)
        requires
            old(bus).wf(),
            conn.wf(),
            old(bus)@[conn.handle as int] matches Some(w) && w is SetupCredits,
        ensures
            final(bus).wf(),
            final(bus).rx_mps_spec() == old(bus).rx_mps_spec(),
            final(bus)@ == old(bus)@.update(conn.handle as int, None::<Waiter>),
            status is Ok ==> r == Ok::<u16, SetupError>(
                old(bus)@[conn.handle as int]->Some_0->SetupCredits_cid,
            ),
            status matches Err(e) ==> r == Err::<u16, SetupError>(SetupError::Raw(e)),
    {
        let w = bus.take_waiter(conn.handle);
        match w {
            Some(Waiter::SetupCredits { cid }) => match status {
                Ok(()) => Ok(cid),
                Err(e) => Err(SetupError::Raw(e)),
            },
            _ => vstd::pervasive::unreached(),
        }
    }

    /// Builds the established channel from a resolved setup or listen.
    pub fn setup_finish(&self, conn: &Connection, res: Result<u16, SetupError>) -> (r: Result<
        Channel<P>,
        SetupError,
    >)
        requires
            conn.wf(),
        ensures
            res matches Ok(cid) ==> r matches Ok(ch) && ch.connection_view() == *conn
                && ch.cid_spec() == cid && ch.wf(),
            res matches Err(e) ==> r matches Err(e2) && e2 == e,
    {
        match res {
            Ok(cid) => Ok(Channel { _packet: PhantomData, conn: *conn, cid }),
            Err(e) => Err(e),
        }
    }

    /// Responder setup: registers the listen on the connection's portal.
    /// Each inbound setup request is then matched against `filter` by the
    /// dispatch path: a match issues an accept response, a miss issues a
    /// reject response and keeps listening. Fails exactly when the
    /// connection is not live.
    pub fn listen_with(
        &self,
        bus: &mut Bus,
        table: &ConnTable,
        conn: &Connection,
        config: &Config,
        filter: PsmFilter,
    ) -> (r: Result<(), SetupError>)
        requires
            old(bus).wf(),
            table.wf(),
            conn.wf(),
            old(bus)@[conn.handle as int] is None,
        ensures
            final(bus).wf(),
            final(bus).rx_mps_spec() == old(bus).rx_mps_spec(),
            !table@[conn.handle as int].connected ==> r == Err::<(), SetupError>(
                SetupError::Disconnected,
            ) && final(bus)@ == old(bus)@,
            table@[conn.handle as int].connected ==> r is Ok && final(bus)@ == old(bus)@.update(
                conn.handle as int,
                Some(Waiter::ListenWait {
                    filter,
                    credits: config.credits,
                    rx_mtu: P::mtu_spec() as u16,
                }),
            ),
    {
        match table.check_connected(conn) {
            Err(_) => Err(SetupError::Disconnected),
            Ok(_) => {
                let _ = bus.register_waiter(
                    conn.handle,
                    Waiter::ListenWait { filter, credits: config.credits, rx_mtu: P::mtu() as u16 },
                );
                Ok(())
            }
        }
    }

    /// Listen for setup requests carrying exactly `psm`: `listen_with` with
    /// the equality filter.
    pub fn listen(
        &self,
        bus: &mut Bus,
        table: &ConnTable,
        conn: &Connection,
        config: &Config,
        psm: u16,
    ) -> (r: Result<(), SetupError>)
        requires
            old(bus).wf(),
            table.wf(),
            conn.wf(),
            old(bus)@[conn.handle as int] is None,
        ensures
            final(bus).wf(),
            final(bus).rx_mps_spec() == old(bus).rx_mps_spec(),
            !table@[conn.handle as int].connected ==> r == Err::<(), SetupError>(
                SetupError::Disconnected,
            ) && final(bus)@ == old(bus)@,
            table@[conn.handle as int].connected ==> r is Ok && final(bus)@ == old(bus)@.update(
                conn.handle as int,
                Some(Waiter::ListenWait {
                    filter: PsmFilter::Exact(psm),
                    credits: config.credits,
                    rx_mtu: P::mtu_spec() as u16,
                }),
            ),
    {
        self.listen_with(bus, table, conn, config, PsmFilter::Exact(psm))
    }

    /// Responder setup: the controller's immediate status for the accept
    /// response the dispatch path asked for. A rejection resolves the listen
    /// with a failure; acceptance either resolves it with the new channel's
    /// coordinates or asks for the credit top-up first.
    pub fn listen_setup_result(
        &self,
        bus: &mut Bus,
        conn: &Connection,
        status: Result<(), RawError>,
    ) -> (r: ListenProgress)
        requires
            old(bus).wf(),
            conn.wf(),
            old(bus)@[conn.handle as int] matches Some(w) && w is ListenAccept,
        ensures
            final(bus).wf(),
            final(bus).rx_mps_spec() == old(bus).rx_mps_spec(),
            ({
                let w = old(bus)@[conn.handle as int]->Some_0;
                let psm = w->ListenAccept_psm;
                let cid = w->ListenAccept_cid;
                let credits = w->ListenAccept_credits;
                &&& status matches Err(e) ==> r == ListenProgress::Done(
                    Err(SetupError::Raw(e)),
                ) && final(bus)@ == old(bus)@.update(conn.handle as int, None::<Waiter>)
                &&& status is Ok && credits != 1 ==> r == ListenProgress::More(
                    Command::FlowControl { handle: conn.handle, cid, credits },
                ) && final(bus)@ == old(bus)@.update(
                    conn.handle as int,
                    Some(Waiter::ListenCredits { psm, cid }),
                )
                &&& status is Ok && credits == 1 ==> r == ListenProgress::Done(
                    Ok((psm, cid)),
                ) && final(bus)@ == old(bus)@.update(conn.handle as int, None::<Waiter>)
            }),
    {
        let w = bus.take_waiter(conn.handle);
        match w {
            Some(Waiter::ListenAccept { psm, cid, credits }) => match status {
                Err(e) => ListenProgress::Done(Err(SetupError::Raw(e))),
                Ok(()) => {
                    if credits != 1 {
                        let _ = bus.register_waiter(
                            conn.handle,
                            Waiter::ListenCredits { psm, cid },
                        );
                        ListenProgress::More(
                            Command::FlowControl { handle: conn.handle, cid, credits },
                        )
                    } else {
                        ListenProgress::Done(Ok((psm, cid)))
                    }
                }
            },
            _ => vstd::pervasive::unreached(),
        }
    }

    /// Responder setup, after the credit top-up command: its status resolves
    /// the listen.
    pub fn listen_credits_result(
        &self,
        bus: &mut Bus,
        conn: &Connection,
        status: Result<(), RawError>,
    ) -> (r: Result<(u16, u16), SetupError>)
        requires
            old(bus).wf(),
            conn.wf(),
            old(bus)@[conn.handle as int] matches Some(w) && w is ListenCredits,
        ensures
            final(bus).wf(),
            final(bus).rx_mps_spec() == old(bus).rx_mps_spec(),
            final(bus)@ == old(bus)@.update(conn.handle as int, None::<Waiter>),
            ({
                let w = old(bus)@[conn.handle as int]->Some_0;
                &&& status is Ok ==> r == Ok::<(u16, u16), SetupError>(
                    (w->ListenCredits_psm, w->ListenCredits_cid),
                )
                &&& status matches Err(e) ==> r == Err::<(u16, u16), SetupError>(
                    SetupError::Raw(e),
                )
            }),
    {
        let w = bus.take_waiter(conn.handle);
        match w {
            Some(Waiter::ListenCredits { psm, cid }) => match status {
                Ok(()) => Ok((psm, cid)),
                Err(e) => Err(SetupError::Raw(e)),
            },
            _ => vstd::pervasive::unreached(),
        }
    }
}

/// One in-flight non-blocking transmit attempt: the driver's record of the
/// decomposed buffer while the controller decides whether to queue it.
pub struct TxAttempt {
    /// Connection handle the transmit goes to.
    pub handle: u16,
    /// Channel id it goes out on.
    pub cid: u16,
    /// The bytes handed to the controller.
    pub sdu: Vec<u8>,
}

impl TxAttempt {
    /// Reclaims the bytes when the controller did not keep the buffer.
    fn into_sdu(self) -> (r: Vec<u8>)
        ensures
            r@ == self.sdu@,
    {
        self.sdu
    }
}

/// How a suspended transmit waiter was woken.
#[derive(Clone, Copy, Debug, PartialEq, Eq, Structural)]
pub enum WakeKind {
    /// A queued transmission completed: a slot is free again.
    TxDone,
    /// The channel was released.
    Released,
    /// The link dropped; the disconnect was processed before the wake.
    Disconnected,
}

/// One round of the suspending transmit as the environment answers it: the
/// controller's verdict on the attempt and, when the queue was full, the
/// event that later woke the waiter.
#[derive(Clone, Copy, Debug, PartialEq, Eq, Structural)]
pub enum TxTurn {
    /// The controller queued the transmit.
    Accepted,
    /// The controller rejected it outright with this status (anything but
    /// the out-of-queue-space status, which is `Full`).
    Fatal(RawError),
    /// No queue space; the waiter was registered and later woken so.
    Full(WakeKind),
}

/// The abstract outcome of the suspending transmit over a finite run of
/// environment answers.
#[derive(Clone, Copy, Debug, PartialEq, Eq, Structural)]
pub enum TxOutcome {
    /// The packet was queued.
    Sent,
    /// The budget ran out with the queue still full: the caller gets the
    /// buffer back.
    QueueFull,
    /// A disconnection arrived first and is propagated.
    Disconnected,
    /// The controller rejected the transmit outright.
    Raw(RawError),
}

/// What the retry loop must return, turn by turn: a dead link propagates
/// disconnection; an exhausted budget returns the buffer; otherwise the
/// first decisive answer settles it and a full queue retries after the wake
/// (a disconnect wake kills the link for the retry).
pub open spec fn tx_outcome(connected: bool, s: Seq<TxTurn>) -> TxOutcome
    decreases s.len(),
{
    if !connected {
        TxOutcome::Disconnected
    } else if s.len() == 0 {
        TxOutcome::QueueFull
    } else {
        match s[0] {
            TxTurn::Accepted => TxOutcome::Sent,
            TxTurn::Fatal(e) => TxOutcome::Raw(e),
            TxTurn::Full(w) => tx_outcome(
                !(w is Disconnected),
                s.subrange(1, s.len() as int),
            ),
        }
    }
}

/// Whether a transmit result realizes the abstract outcome for a packet
/// whose bytes were `sdu`. A returned buffer is the original, byte for byte.
pub open spec fn tx_result_matches<P: Packet>(
    r: Result<(), TxError<P>>,
    sdu: Seq<u8>,
    m: TxOutcome,
) -> bool {
    match m {
        TxOutcome::Sent => r is Ok,
        TxOutcome::QueueFull => r matches Err(TxError::TxQueueFull(p)) && p.bytes() == sdu,
        TxOutcome::Disconnected => r matches Err(e) && e is Disconnected,
        TxOutcome::Raw(e) => r matches Err(TxError::Raw(e2)) && e2 == e,
    }
}

impl<P: Packet> Channel<P> {
    /// Non-blocking transmit, first half: checks the connection and
    /// decomposes the buffer for the controller. The attempt record keeps
    /// the bytes so the second half can give the buffer back unconsumed on
    /// backpressure.
    pub fn try_tx_begin(&self, table: &ConnTable, sdu: P) -> (r: Result<TxAttempt, TxError<P>>)
        requires
            table.wf(),
            self.wf(),
            sdu.bytes().len() <= P::mtu_spec(),
        ensures
            !table@[self.handle_spec() as int].connected ==> (r matches Err(e)
                && e == TxError::<P>::Disconnected),
            table@[self.handle_spec() as int].connected ==> (r matches Ok(a)
                && a.handle == self.handle_spec() && a.cid == self.cid_spec()
                && a.sdu@ == sdu.bytes()),
    {
        match table.check_connected(&self.conn) {
            Err(_) => Err(TxError::Disconnected),
            Ok(handle) => Ok(TxAttempt { handle, cid: self.cid, sdu: sdu.into_bytes() }),
        }
    }

    /// Non-blocking transmit, second half: the controller's immediate
    /// verdict. On the out-of-queue-space status the original buffer comes
    /// back byte for byte, unconsumed, and nothing else was done; on any
    /// other rejection the buffer is reclaimed and dropped, never leaked.
    pub fn try_tx_end(att: TxAttempt, status: Result<(), RawError>) -> (r: Result<
        (),
        TxError<P>,
    >)
        requires
            att.sdu@.len() <= P::mtu_spec(),
        ensures
            status is Ok ==> r is Ok,
            status matches Err(e) ==> (if e == RawError::Resources {
                r matches Err(TxError::TxQueueFull(p)) && p.bytes() == att.sdu@
            } else {
                r matches Err(TxError::Raw(e2)) && e2 == e
            }),
    {
        match status {
            Ok(()) => Ok(()),
            Err(RawError::Resources) => Err(
                TxError::TxQueueFull(P::from_bytes(att.into_sdu())),
            ),
            Err(e) => {
                // The controller did not take ownership: reclaim the buffer
                // and let it drop.
                let _ = att.into_sdu();
                Err(TxError::Raw(e))
            }
        }
    }

    /// Suspending transmit: retries the non-blocking attempt, waiting on the
    /// connection's portal between attempts, until the controller accepts,
    /// rejects outright, or the link dies; an exhausted `script` (the retry
    /// budget, answer by answer) returns the buffer. The result realizes
    /// `tx_outcome` over the script.
    pub fn tx(
        &self,
        table: &mut ConnTable,
        bus: &mut Bus,
        sdu: P,
        script: &Vec<TxTurn>,
    ) -> (r: Result<(), TxError<P>>)
        requires
            old(table).wf(),
            old(bus).wf(),
            self.wf(),
            sdu.bytes().len() <= P::mtu_spec(),
            old(bus)@[self.handle_spec() as int] is None,
            forall|k: int|
                0 <= k < script@.len() ==> ((#[trigger] script@[k]) matches TxTurn::Fatal(e)
                    ==> e != RawError::Resources),
        ensures
            final(table).wf(),
            final(bus).wf(),
            final(bus)@ == old(bus)@,
            forall|j: int|
                0 <= j < old(table)@.len() && j != self.handle_spec() as int
                    ==> final(table)@[j] == old(table)@[j],
            tx_result_matches(
                r,
                sdu.bytes(),
                tx_outcome(old(table)@[self.handle_spec() as int].connected, script@),
            ),
    {
        let h = self.conn.handle;
        let ghost target = tx_outcome(table@[h as int].connected, script@);
        proof {
            assert(script@.subrange(0, script@.len() as int) =~= script@);
        }
        let mut pkt = sdu;
        let mut i: usize = 0;
        while i < script.len()
            invariant
                old(table).wf(),
                table.wf(),
                bus.wf(),
                self.wf(),
                h == self.handle_spec(),
                i <= script@.len(),
                bus@ == old(bus)@,
                bus@[h as int] is None,
                pkt.bytes() == sdu.bytes(),
                pkt.bytes().len() <= P::mtu_spec(),
                forall|j: int|
                    0 <= j < old(table)@.len() && j != h as int ==> table@[j] == old(table)@[j],
                forall|k: int|
                    0 <= k < script@.len() ==> ((#[trigger] script@[k]) matches TxTurn::Fatal(e)
                        ==> e != RawError::Resources),
                target == tx_outcome(
                    table@[h as int].connected,
                    script@.subrange(i as int, script@.len() as int),
                ),
                target == tx_outcome(old(table)@[h as int].connected, script@),
            decreases script@.len() - i,
        {
            let ghost table_at_turn = table@;
            let att = match self.try_tx_begin(table, pkt) {
                Ok(a) => a,
                Err(e) => {
                    return Err(e);
                }
            };
            let turn = script[i];
            match turn {
                TxTurn::Accepted => {
                    return Self::try_tx_end(att, Ok(()));
                }
                TxTurn::Fatal(e) => {
                    return Self::try_tx_end(att, Err(e));
                }
                TxTurn::Full(w) => {
                    let ghost gi = i as int;
                    pkt = P::from_bytes(att.into_sdu());
                    let _ = bus.register_waiter(h, Waiter::TxWait { cid: self.cid });
                    if matches!(w, WakeKind::Disconnected) {
                        table.on_disconnected(h);
                    }
                    let evt = match w {
                        WakeKind::TxDone => ConnEvent::ChTx { cid: self.cid },
                        WakeKind::Released => ConnEvent::ChReleased,
                        WakeKind::Disconnected => ConnEvent::Disconnected,
                    };
                    let _ = on_evt(bus, h, evt);
                    proof {
                        assert(script@.subrange(gi, script@.len() as int).subrange(
                            1,
                            script@.len() - gi,
                        ) =~= script@.subrange(gi + 1, script@.len() as int));
                        assert(bus@ =~= old(bus)@);
                        assert forall|j: int|
                            0 <= j < old(table)@.len() && j != h as int implies table@[j] == old(
                            table,
                        )@[j] by {
                            assert(table_at_turn[j] == old(table)@[j]);
                            if w is Disconnected {
                                assert(table@ == apply_link_event(
                                    table_at_turn,
                                    LinkEvent::Disconnected(h),
                                ));
                                assert(table@[j] == table_at_turn[j]);
                            }
                        }
                    }
                    i += 1;
                }
            }
        }
        proof {
            assert(script@.subrange(i as int, script@.len() as int) =~= Seq::<TxTurn>::empty());
        }
        // Retry budget exhausted with the queue still full.
        match table.check_connected(&self.conn) {
            Ok(_) => Err(TxError::TxQueueFull(pkt)),
            Err(_) => Err(TxError::Disconnected),
        }
    }

    /// Receive, first step: checks the connection, allocates a buffer
    /// through the packet strategy (failing with `AllocateFailed` when the
    /// allocator cannot), and hands the buffer to the controller with the
    /// receive command. The filled buffer comes back only through a
    /// receive-complete event; after a disconnect it never reaches the
    /// caller.
    pub fn rx_begin(&self, table: &ConnTable) -> (r: Result<Command, RxError>)
        requires
            table.wf(),
            self.wf(),
        ensures
            !table@[self.handle_spec() as int].connected ==> r == Err::<Command, RxError>(
                RxError::Disconnected,
            ),
            table@[self.handle_spec() as int].connected ==> match r {
                Ok(cmd) => cmd == (Command::ChannelRx {
                    handle: self.handle_spec(),
                    cid: self.cid_spec(),
                    cap: P::mtu_spec() as u16,
                }),
                Err(e) => e == RxError::AllocateFailed,
            },
    {
        let handle = match table.check_connected(&self.conn) {
            Ok(h) => h,
            Err(_) => {
                return Err(RxError::Disconnected);
            }
        };
        let buf = match P::allocate() {
            Some(b) => b,
            None => {
                return Err(RxError::AllocateFailed);
            }
        };
        // Ownership of the buffer passes to the controller with the command;
        // it comes back filled in the receive-complete event, or through the
        // buffer-released free path if the channel dies first.
        let _ = buf.into_bytes();
        Ok(Command::ChannelRx { handle, cid: self.cid, cap: P::mtu() as u16 })
    }

    /// Receive, second step: the controller's immediate status for the
    /// receive command. A rejection means the controller did not keep the
    /// buffer (it is reclaimed and dropped); acceptance suspends on the
    /// connection's portal until a receive completes or the link dies.
    pub fn rx_issued(&self, bus: &mut Bus, status: Result<(), RawError>) -> (r: Result<
        (),
        RxError,
    >)
        requires
            old(bus).wf(),
            self.wf(),
            old(bus)@[self.handle_spec() as int] is None,
        ensures
            final(bus).wf(),
            final(bus).rx_mps_spec() == old(bus).rx_mps_spec(),
            status matches Err(e) ==> (r == Err::<(), RxError>(RxError::Raw(e)) && final(bus)@
                == old(bus)@),
            status is Ok ==> (r is Ok && final(bus)@ == old(bus)@.update(
                self.handle_spec() as int,
                Some(Waiter::RxWait { cid: self.cid_spec() }),
            )),
    {
        match status {
            Err(e) => Err(RxError::Raw(e)),
            Ok(()) => {
                let _ = bus.register_waiter(self.conn.handle, Waiter::RxWait { cid: self.cid });
                Ok(())
            }
        }
    }

    /// Receive, last step: turns the dispatch path's resolution into the
    /// caller's packet, reconstructed from the filled buffer's bytes (which
    /// the controller bounds by the receive MTU it was given).
    pub fn rx_finish(&self, res: Result<Vec<u8>, RxError>) -> (r: Result<P, RxError>)
        requires
            res matches Ok(b) ==> b@.len() <= P::mtu_spec(),
        ensures
            res matches Ok(b) ==> (r matches Ok(p) && p.bytes() == b@),
            res matches Err(e) ==> (r matches Err(e2) && e2 == e),
    {
        match res {
            Ok(b) => Ok(P::from_bytes(b)),
            Err(e) => Err(e),
        }
    }
}

/// With an unlimited retry budget the suspending transmit succeeds as soon
/// as the controller accepts an attempt, when every earlier round was
/// backpressure relieved by a wake that was not a disconnection.
pub proof fn lemma_tx_eventually_sends(s: Seq<TxTurn>, i: int)
    requires
        0 <= i < s.len(),
        s[i] == TxTurn::Accepted,
        forall|j: int|
            0 <= j < i ==> ((#[trigger] s[j]) matches TxTurn::Full(w) && w
                != WakeKind::Disconnected),
    ensures
        tx_outcome(true, s) == TxOutcome::Sent,
    decreases i,
{
    if i == 0 {
    } else {
        let t = s.subrange(1, s.len() as int);
        assert(s[0] matches TxTurn::Full(w) && w != WakeKind::Disconnected);
        assert(t[i - 1] == s[i]);
        assert forall|j: int| 0 <= j < i - 1 implies ((#[trigger] t[j]) matches TxTurn::Full(w)
            && w != WakeKind::Disconnected) by {
            assert(t[j] == s[j + 1]);
        }
        lemma_tx_eventually_sends(t, i - 1);
        match s[0] {
            TxTurn::Full(w) => {
                assert(!(w is Disconnected));
                assert(tx_outcome(true, s) == tx_outcome(true, t));
            }
            _ => {
                assert(false);
            }
        }
    }
}

/// A disconnection that arrives while the transmit is backed up is
/// propagated instead of looping forever: the first disconnect wake settles
/// the outcome, whatever the rest of the script holds.
pub proof fn lemma_tx_disconnect_propagates(s: Seq<TxTurn>, i: int)
    requires
        0 <= i < s.len(),
        s[i] == TxTurn::Full(WakeKind::Disconnected),
        forall|j: int|
            0 <= j < i ==> ((#[trigger] s[j]) matches TxTurn::Full(w) && w
                != WakeKind::Disconnected),
    ensures
        tx_outcome(true, s) == TxOutcome::Disconnected,
    decreases i,
{
    if i == 0 {
        assert(tx_outcome(false, s.subrange(1, s.len() as int)) == TxOutcome::Disconnected);
    } else {
        let t = s.subrange(1, s.len() as int);
        assert(s[0] matches TxTurn::Full(w) && w != WakeKind::Disconnected);
        assert(t[i - 1] == s[i]);
        assert forall|j: int| 0 <= j < i - 1 implies ((#[trigger] t[j]) matches TxTurn::Full(w)
            && w != WakeKind::Disconnected) by {
            assert(t[j] == s[j + 1]);
        }
        lemma_tx_disconnect_propagates(t, i - 1);
        match s[0] {
            TxTurn::Full(w) => {
                assert(!(w is Disconnected));
                assert(tx_outcome(true, s) == tx_outcome(true, t));
            }
            _ => {
                assert(false);
            }
        }
    }
}

} // verus!
