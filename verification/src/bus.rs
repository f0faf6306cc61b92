//! Per-connection event dispatch.
//!
//! Hardware events arrive in one ordered stream, each tagged with the
//! connection handle it belongs to. The dispatcher routes each record to that
//! handle's portal: if the registered waiter is resolved by the event, the
//! slot is cleared and the resolution is handed back so the runtime can
//! resume the suspended task; if the waiter is not yet satisfied it stays
//! registered; if nobody is waiting the event is dropped. Buffer-release
//! notifications are handled directly in the dispatch path, not through a
//! portal, because no task ever waits on them.

use vstd::prelude::*;
use crate::CONNS_MAX;
use crate::cmd::Command;
use crate::l2cap::RxError;
use crate::l2cap::SetupError;
use crate::portal::Portal;
use crate::portal::PortalBusyError;

verus! {

/// One event record for a connection, as the dispatch core reads it.
#[derive(Clone, Debug)]
pub enum ConnEvent {
    /// The link dropped (also delivered synthetically to pending waiters).
    Disconnected,
    /// A channel setup we initiated completed; the channel id was assigned
    /// when the setup command was accepted.
    ChSetup { cid: u16 },
    /// The peer refused a channel setup we initiated.
    ChSetupRefused,
    /// The peer asks to set up a channel for `psm`; `cid` identifies the
    /// request when responding.
    ChSetupRequest { psm: u16, cid: u16 },
    /// A channel was torn down.
    ChReleased,
    /// A queued transmission completed; the controller released its claim on
    /// the transmit buffer.
    ChTx { cid: u16 },
    /// A receive completed: `sdu` is the filled receive buffer.
    ChRx { cid: u16, sdu: Vec<u8> },
    /// The peer granted transmit credits. Nothing waits on this.
    ChCredit,
    /// The controller released a receive buffer it no longer needs.
    ChSduBufReleased,
}

/// Acceptance predicate for inbound channel-setup requests, keyed on the
/// requested protocol/service multiplexer id.
#[derive(Clone, Copy, Debug, PartialEq, Eq, Structural)]
pub enum PsmFilter {
    /// Accept exactly this multiplexer id.
    Exact(u16),
    /// Accept every request.
    Any,
}

/// Whether the filter accepts a requested multiplexer id.
pub open spec fn filter_accepts_spec(f: PsmFilter, psm: u16) -> bool {
    match f {
        PsmFilter::Exact(p) => p == psm,
        PsmFilter::Any => true,
    }
}

/// Applies the acceptance predicate.
pub fn filter_accepts(f: PsmFilter, psm: u16) -> (b: bool)
    ensures
        b == filter_accepts_spec(f, psm),
{
    match f {
        PsmFilter::Exact(p) => p == psm,
        PsmFilter::Any => true,
    }
}

/// What the registered waiter of a connection's portal is waiting for.
///
/// A waiter either waits for one matching event (cleared on the first event,
/// whatever it is), or across a stream of attempts (kept registered while
/// events leave it unsatisfied), mirroring the two waiting modes.
#[derive(Clone, Copy, Debug, PartialEq, Eq, Structural)]
pub enum Waiter {
    /// Initiator channel setup: suspended until the setup resolves. `credits`
    /// is the configured initial credit count to push above the implicit
    /// default of one.
    SetupWait { cid: u16, credits: u16 },
    /// Initiator setup accepted; the credit top-up command is in flight.
    SetupCredits { cid: u16 },
    /// Responder listen: suspended until an acceptable setup request arrives.
    ListenWait { filter: PsmFilter, credits: u16, rx_mtu: u16 },
    /// Responder accepted a request; the accept-response command is in
    /// flight.
    ListenAccept { psm: u16, cid: u16, credits: u16 },
    /// Responder accept sent; the credit top-up command is in flight.
    ListenCredits { psm: u16, cid: u16 },
    /// Suspended transmit: woken by the next event so it can retry.
    TxWait { cid: u16 },
    /// Suspended receive: resolved by a receive-complete, a release, or a
    /// disconnect; anything else leaves it waiting.
    RxWait { cid: u16 },
}

/// What dispatching one event produced.
#[derive(Debug)]
pub enum Step {
    /// No waiter was registered, or the event leaves the waiter unsatisfied:
    /// the event is dropped (portals do not queue).
    Dropped,
    /// The waiter advanced and this command must be issued; its immediate
    /// status goes back into the matching `*_result` function.
    Pending(Command),
    /// The suspended initiator setup resolved: the channel id, or a typed
    /// failure.
    SetupDone(Result<u16, SetupError>),
    /// The suspended listen resolved: the accepted multiplexer id and
    /// channel id, or a typed failure.
    ListenDone(Result<(u16, u16), SetupError>),
    /// The suspended transmit was woken and must retry.
    TxWake,
    /// The suspended receive resolved: the filled buffer's bytes, or a typed
    /// failure.
    RxDone(Result<Vec<u8>, RxError>),
    /// An event kind arrived that the registered waiter never expects: a
    /// contract violation to be surfaced loudly, never silently ignored.
    Defect,
}

/// Portal dispatch: what one event does to the registered waiter, and what
/// the dispatch path reports. First component: the slot afterwards; second:
/// the step handed to the runtime.
pub open spec fn spec_dispatch(
    w: Option<Waiter>,
    evt: ConnEvent,
    handle: u16,
    rx_mps: u16,
) -> (Option<Waiter>, Step) {
    match w {
        None => (None::<Waiter>, Step::Dropped),
        Some(Waiter::SetupWait { cid, credits }) => match evt {
            ConnEvent::Disconnected => (
                None::<Waiter>,
                Step::SetupDone(Err(SetupError::Disconnected)),
            ),
            // A released channel while setting up means the link dropped
            // mid-handshake: surfaced as a disconnection.
            ConnEvent::ChReleased => (
                None::<Waiter>,
                Step::SetupDone(Err(SetupError::Disconnected)),
            ),
            ConnEvent::ChSetup { .. } => if credits != 1 {
                (
                    Some(Waiter::SetupCredits { cid }),
                    Step::Pending(Command::FlowControl { handle, cid, credits }),
                )
            } else {
                (None::<Waiter>, Step::SetupDone(Ok(cid)))
            },
            ConnEvent::ChSetupRefused => (
                None::<Waiter>,
                Step::SetupDone(Err(SetupError::Refused)),
            ),
            _ => (None::<Waiter>, Step::Defect),
        },
        Some(Waiter::SetupCredits { .. }) => (None::<Waiter>, Step::Defect),
        Some(Waiter::ListenWait { filter, credits, rx_mtu }) => match evt {
            ConnEvent::Disconnected => (
                None::<Waiter>,
                Step::ListenDone(Err(SetupError::Disconnected)),
            ),
            ConnEvent::ChSetupRequest { psm, cid } => if filter_accepts_spec(filter, psm) {
                (
                    Some(Waiter::ListenAccept { psm, cid, credits }),
                    Step::Pending(Command::ChannelAccept { handle, cid, psm, rx_mps, rx_mtu }),
                )
            } else {
                // The request is rejected and the listener keeps waiting:
                // a single rejection never ends the listen.
                (
                    Some(Waiter::ListenWait { filter, credits, rx_mtu }),
                    Step::Pending(Command::ChannelReject { handle, cid, psm }),
                )
            },
            _ => (None::<Waiter>, Step::Defect),
        },
        Some(Waiter::ListenAccept { .. }) => (None::<Waiter>, Step::Defect),
        Some(Waiter::ListenCredits { .. }) => (None::<Waiter>, Step::Defect),
        Some(Waiter::TxWait { .. }) => match evt {
            ConnEvent::ChTx { .. } => (None::<Waiter>, Step::TxWake),
            ConnEvent::ChReleased => (None::<Waiter>, Step::TxWake),
            ConnEvent::Disconnected => (None::<Waiter>, Step::TxWake),
            _ => (None::<Waiter>, Step::Defect),
        },
        Some(Waiter::RxWait { cid }) => match evt {
            ConnEvent::Disconnected => (
                None::<Waiter>,
                Step::RxDone(Err(RxError::Disconnected)),
            ),
            ConnEvent::ChReleased => (
                None::<Waiter>,
                Step::RxDone(Err(RxError::Disconnected)),
            ),
            ConnEvent::ChRx { sdu, .. } => (None::<Waiter>, Step::RxDone(Ok(sdu))),
            // Anything else leaves the receive waiting.
            _ => (Some(Waiter::RxWait { cid }), Step::Dropped),
        },
    }
}

/// Events the dispatch path never routes to a portal: credit notifications
/// are ignored, and released receive buffers go straight back to the
/// allocator's free path.
pub open spec fn spec_bypasses_portal(evt: ConnEvent) -> bool {
    evt is ChCredit || evt is ChSduBufReleased
}

/// Events on which the dispatch path reclaims and frees a buffer the
/// controller no longer needs.
pub open spec fn spec_frees_buffer(evt: ConnEvent) -> bool {
    evt is ChTx || evt is ChSduBufReleased
}

/// The full dispatch of one event record: routing first, then the portal.
pub open spec fn spec_on_evt(
    w: Option<Waiter>,
    evt: ConnEvent,
    handle: u16,
    rx_mps: u16,
) -> (Option<Waiter>, Step) {
    if spec_bypasses_portal(evt) {
        (w, Step::Dropped)
    } else {
        spec_dispatch(w, evt, handle, rx_mps)
    }
}

/// The set of per-connection portals, one per possible handle, plus the
/// receive fragment size the responder mirrors into accept responses.
pub struct Bus {
    portals: Vec<Portal<Waiter>>,
    rx_mps: u16,
}

impl View for Bus {
    type V = Seq<Option<Waiter>>;

    closed spec fn view(&self) -> Seq<Option<Waiter>> {
        self.portals@.map_values(|p: Portal<Waiter>| p.waiter())
    }
}

impl Bus {
    /// Structural invariant: one portal per possible handle.
    pub open spec fn wf(self) -> bool {
        self@.len() == CONNS_MAX as int
    }

    /// The configured receive fragment size.
    pub closed spec fn rx_mps_spec(self) -> u16 {
        self.rx_mps
    }

    /// The configured receive fragment size, as a value.
    pub fn rx_mps(&self) -> (r: u16)
        ensures
            r == self.rx_mps_spec(),
    {
        self.rx_mps
    }

    /// Creates the dispatcher with every portal empty.
    pub fn new(rx_mps: u16) -> (b: Bus)
        ensures
            b.wf(),
            b.rx_mps_spec() == rx_mps,
            forall|i: int| 0 <= i < b@.len() ==> b@[i] is None,
    {
        let mut portals: Vec<Portal<Waiter>> = Vec::new();
        let mut i: usize = 0;
        while i < CONNS_MAX
            invariant
                i <= CONNS_MAX,
                portals@.len() == i as int,
                forall|j: int| 0 <= j < i as int ==> portals@[j].waiter() is None,
            decreases CONNS_MAX - i,
        {
            portals.push(Portal::new());
            i += 1;
        }
        let b = Bus { portals, rx_mps };
        proof {
            assert forall|k: int| 0 <= k < b@.len() implies b@[k] is None by {
                assert(b@[k] == b.portals@[k].waiter());
            }
        }
        b
    }

    /// Registers a waiter on a connection's portal; an occupied portal
    /// rejects the registration unchanged.
    pub fn register_waiter(&mut self, conn_handle: u16, w: Waiter) -> (r: Result<
        (),
        PortalBusyError,
    >)
        requires
            old(self).wf(),
            (conn_handle as int) < CONNS_MAX as int,
        ensures
            final(self).wf(),
            final(self).rx_mps_spec() == old(self).rx_mps_spec(),
            old(self)@[conn_handle as int] is None ==> r is Ok && final(self)@ == old(
                self,
            )@.update(conn_handle as int, Some(w)),
            old(self)@[conn_handle as int] is Some ==> r is Err && final(self)@ == old(self)@,
    {
        let r = self.portals[conn_handle as usize].register(w);
        proof {
            if old(self)@[conn_handle as int] is None {
                assert(self@ =~= old(self)@.update(conn_handle as int, Some(w)));
            } else {
                assert(self@ =~= old(self)@);
            }
        }
        r
    }

    /// Takes the registered waiter off a connection's portal, clearing it.
    pub fn take_waiter(&mut self, conn_handle: u16) -> (r: Option<Waiter>)
        requires
            old(self).wf(),
            (conn_handle as int) < CONNS_MAX as int,
        ensures
            final(self).wf(),
            final(self).rx_mps_spec() == old(self).rx_mps_spec(),
            r == old(self)@[conn_handle as int],
            final(self)@ == old(self)@.update(conn_handle as int, None::<Waiter>),
    {
        let r = self.portals[conn_handle as usize].take();
        proof {
            assert(self@ =~= old(self)@.update(conn_handle as int, None::<Waiter>));
        }
        r
    }
}

/// The portal serving one connection handle.
pub fn portal(bus: &Bus, conn_handle: u16) -> (p: &Portal<Waiter>)
    requires
        bus.wf(),
        (conn_handle as int) < CONNS_MAX as int,
    ensures
        p.waiter() == bus@[conn_handle as int],
{
    bus.portals_ref(conn_handle)
}

impl Bus {
    /// Borrows one portal; helper for `portal`.
    fn portals_ref(&self, conn_handle: u16) -> (p: &Portal<Waiter>)
        requires
            self.wf(),
            (conn_handle as int) < CONNS_MAX as int,
        ensures
            p.waiter() == self@[conn_handle as int],
    {
        &self.portals[conn_handle as usize]
    }
}

/// Dispatches one event record for `conn_handle`.
///
/// Returns the step for the runtime, and whether the dispatch path reclaimed
/// and freed a controller-released buffer on the way (transmit-completed and
/// SDU-buffer-released notifications; the latter never reaches a portal).
pub fn on_evt(bus: &mut Bus, conn_handle: u16, evt: ConnEvent) -> (r: (Step, bool))
    requires
        old(bus).wf(),
        (conn_handle as int) < CONNS_MAX as int,
    ensures
        final(bus).wf(),
        final(bus).rx_mps_spec() == old(bus).rx_mps_spec(),
        r.1 == spec_frees_buffer(evt),
        ({
            let (w2, step) = spec_on_evt(
                old(bus)@[conn_handle as int],
                evt,
                conn_handle,
                old(bus).rx_mps_spec(),
            );
            final(bus)@ == old(bus)@.update(conn_handle as int, w2) && r.0 == step
        }),
{
    let freed = matches!(evt, ConnEvent::ChTx { .. } | ConnEvent::ChSduBufReleased);
    if matches!(evt, ConnEvent::ChCredit | ConnEvent::ChSduBufReleased) {
        proof {
            assert(old(bus)@.update(conn_handle as int, old(bus)@[conn_handle as int]) =~= old(
                bus,
            )@);
        }
        return (Step::Dropped, freed);
    }
    let rx_mps = bus.rx_mps;
    let w = bus.take_waiter(conn_handle);
    let (back, step): (Option<Waiter>, Step) = match w {
        None => (None, Step::Dropped),
        Some(Waiter::SetupWait { cid, credits }) => match evt {
            ConnEvent::Disconnected => (None, Step::SetupDone(Err(SetupError::Disconnected))),
            ConnEvent::ChReleased => (None, Step::SetupDone(Err(SetupError::Disconnected))),
            ConnEvent::ChSetup { .. } => {
                if credits != 1 {
                    (
                        Some(Waiter::SetupCredits { cid }),
                        Step::Pending(
                            Command::FlowControl { handle: conn_handle, cid, credits },
                        ),
                    )
                } else {
                    (None, Step::SetupDone(Ok(cid)))
                }
            }
            ConnEvent::ChSetupRefused => (None, Step::SetupDone(Err(SetupError::Refused))),
            _ => (None, Step::Defect),
        },
        Some(Waiter::SetupCredits { .. }) => (None, Step::Defect),
        Some(Waiter::ListenWait { filter, credits, rx_mtu }) => match evt {
            ConnEvent::Disconnected => (None, Step::ListenDone(Err(SetupError::Disconnected))),
            ConnEvent::ChSetupRequest { psm, cid } => {
                if filter_accepts(filter, psm) {
                    (
                        Some(Waiter::ListenAccept { psm, cid, credits }),
                        Step::Pending(
                            Command::ChannelAccept {
                                handle: conn_handle,
                                cid,
                                psm,
                                rx_mps,
                                rx_mtu,
                            },
                        ),
                    )
                } else {
                    (
                        Some(Waiter::ListenWait { filter, credits, rx_mtu }),
                        Step::Pending(Command::ChannelReject { handle: conn_handle, cid, psm }),
                    )
                }
            }
            _ => (None, Step::Defect),
        },
        Some(Waiter::ListenAccept { .. }) => (None, Step::Defect),
        Some(Waiter::ListenCredits { .. }) => (None, Step::Defect),
        Some(Waiter::TxWait { .. }) => match evt {
            ConnEvent::ChTx { .. } => (None, Step::TxWake),
            ConnEvent::ChReleased => (None, Step::TxWake),
            ConnEvent::Disconnected => (None, Step::TxWake),
            _ => (None, Step::Defect),
        },
        Some(Waiter::RxWait { cid }) => match evt {
            ConnEvent::Disconnected => (None, Step::RxDone(Err(RxError::Disconnected))),
            ConnEvent::ChReleased => (None, Step::RxDone(Err(RxError::Disconnected))),
            ConnEvent::ChRx { sdu, .. } => (None, Step::RxDone(Ok(sdu))),
            _ => (Some(Waiter::RxWait { cid }), Step::Dropped),
        },
    };
    match back {
        Some(w2) => {
            let _ = bus.register_waiter(conn_handle, w2);
        }
        None => {}
    }
    proof {
        assert(bus@ =~= old(bus)@.update(
            conn_handle as int,
            spec_on_evt(
                old(bus)@[conn_handle as int],
                evt,
                conn_handle,
                old(bus).rx_mps_spec(),
            ).0,
        ));
    }
    (step, freed)
}

/// Whether a step resolves the suspended wait (resumes the task).
pub open spec fn is_resolution(s: Step) -> bool {
    ||| s is SetupDone
    ||| s is ListenDone
    ||| s is TxWake
    ||| s is RxDone
}

/// A wait resolves exactly once per registration: the event that resolves it
/// clears the slot before control returns, so whatever event arrives next
/// finds nobody waiting and is dropped. (The other half of the exactly-once
/// discipline is `Portal::register`, which rejects a second registration on
/// an occupied slot.)
pub proof fn lemma_wait_resolves_exactly_once(
    w: Waiter,
    evt: ConnEvent,
    evt2: ConnEvent,
    handle: u16,
    rx_mps: u16,
)
    ensures
        ({
            let (w2, step) = spec_on_evt(Some(w), evt, handle, rx_mps);
            is_resolution(step) ==> {
                &&& w2 is None
                &&& !is_resolution(spec_on_evt(w2, evt2, handle, rx_mps).1)
                &&& spec_on_evt(w2, evt2, handle, rx_mps).0 is None
            }
        }),
{
}

} // verus!
