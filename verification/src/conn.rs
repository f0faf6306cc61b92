//! Connection state table.
//!
//! One record per connection handle, range-checked, holding the connected
//! flag and the negotiated link parameters. The record is the only place the
//! dispatch path and application tasks share state, so every mutation goes
//! through a method with a contract; `check_connected` is the liveness test
//! every channel operation makes before touching hardware state.

use vstd::prelude::*;
use crate::CONNS_MAX;
use crate::DisconnectedError;

verus! {

/// Per-handle connection record.
#[derive(Clone, Copy, Debug, PartialEq, Eq, Structural)]
pub struct ConnectionState {
    /// The handle this record belongs to; meaningful while `connected`.
    pub handle: u16,
    /// Set when a connect for this handle completed and no disconnect has
    /// since been processed.
    pub connected: bool,
    /// Negotiated/desired transmit PHY bitmask.
    pub tx_phys: u8,
    /// Negotiated/desired receive PHY bitmask.
    pub rx_phys: u8,
    /// Negotiated/desired MTU.
    pub att_mtu: u16,
    /// Negotiated/desired data length.
    pub data_length: u8,
}

impl ConnectionState {
    /// The record of a handle with no live connection.
    pub open spec fn reset_spec(handle: u16) -> ConnectionState {
        ConnectionState {
            handle,
            connected: false,
            tx_phys: 0,
            rx_phys: 0,
            att_mtu: 0,
            data_length: 0,
        }
    }

    /// The record right after a connect for `handle` completed.
    pub open spec fn fresh_spec(handle: u16) -> ConnectionState {
        ConnectionState {
            handle,
            connected: true,
            tx_phys: 0,
            rx_phys: 0,
            att_mtu: 0,
            data_length: 0,
        }
    }

    /// Returns the live handle, or a disconnection failure when no successful
    /// connect has completed for this record (or a disconnect has since been
    /// processed).
    pub fn check_connected(&self) -> (r: Result<u16, DisconnectedError>)
        ensures
            self.connected ==> r == Ok::<u16, DisconnectedError>(self.handle),
            !self.connected ==> r == Err::<u16, DisconnectedError>(DisconnectedError),
    {
        if self.connected {
            Ok(self.handle)
        } else {
            Err(DisconnectedError)
        }
    }
}

/// Reference to a live (or recently live) connection, by handle.
#[derive(Clone, Copy, Debug, PartialEq, Eq, Structural)]
pub struct Connection {
    pub handle: u16,
}

impl Connection {
    /// A connection reference is valid when its handle is in range.
    pub open spec fn wf(self) -> bool {
        (self.handle as int) < (CONNS_MAX as int)
    }

    pub fn new(handle: u16) -> (c: Connection)
        requires
            (handle as int) < (CONNS_MAX as int),
        ensures
            c.wf(),
            c.handle == handle,
    {
        Connection { handle }
    }
}

/// A step of table history: the two dispatch-path events that decide the
/// connected flag of a handle.
#[derive(Clone, Copy, Debug, PartialEq, Eq, Structural)]
pub enum LinkEvent {
    Connected(u16),
    Disconnected(u16),
}

/// What one link event does to the table contents.
pub open spec fn apply_link_event(s: Seq<ConnectionState>, e: LinkEvent) -> Seq<ConnectionState> {
    match e {
        LinkEvent::Connected(h) => {
            if (h as int) < s.len() {
                s.update(h as int, ConnectionState::fresh_spec(h))
            } else {
                s
            }
        }
        LinkEvent::Disconnected(h) => {
            if (h as int) < s.len() {
                s.update(h as int, ConnectionState::reset_spec(h))
            } else {
                s
            }
        }
    }
}

/// The table contents after a whole history of link events.
pub open spec fn apply_link_trace(s: Seq<ConnectionState>, t: Seq<LinkEvent>) -> Seq<ConnectionState>
    decreases t.len(),
{
    if t.len() == 0 {
        s
    } else {
        apply_link_event(apply_link_trace(s, t.drop_last()), t.last())
    }
}

/// The per-handle connection state table.
pub struct ConnTable {
    states: Vec<ConnectionState>,
}

impl View for ConnTable {
    type V = Seq<ConnectionState>;

    closed spec fn view(&self) -> Seq<ConnectionState> {
        self.states@
    }
}

impl ConnTable {
    /// Structural invariant: one record per possible handle, each keyed by
    /// its own handle.
    pub open spec fn wf(self) -> bool {
        &&& self@.len() == CONNS_MAX as int
        &&& forall|i: int| 0 <= i < self@.len() ==> (#[trigger] self@[i]).handle == i as u16
    }

    /// All records in their reset state, each keyed by its own handle.
    pub open spec fn all_reset(self) -> bool {
        forall|i: int|
            0 <= i < self@.len() ==> self@[i] == ConnectionState::reset_spec(i as u16)
    }

    /// Creates the table with every handle disconnected.
    pub fn new() -> (t: ConnTable)
        ensures
            t.wf(),
            t.all_reset(),
    {
        let mut states: Vec<ConnectionState> = Vec::new();
        let mut i: usize = 0;
        while i < CONNS_MAX
            invariant
                i <= CONNS_MAX,
                states@.len() == i as int,
                forall|j: int|
                    0 <= j < i as int ==> states@[j] == ConnectionState::reset_spec(j as u16),
            decreases CONNS_MAX - i,
        {
            states.push(ConnectionState {
                handle: i as u16,
                connected: false,
                tx_phys: 0,
                rx_phys: 0,
                att_mtu: 0,
                data_length: 0,
            });
            i += 1;
        }
        ConnTable { states }
    }

    /// Scoped, exclusive access to one record for inspection: the sanctioned
    /// way to read a connection's fields.
    pub fn with_state(&self, conn: &Connection) -> (r: &ConnectionState)
        requires
            self.wf(),
            conn.wf(),
        ensures
            *r == self@[conn.handle as int],
    {
        &self.states[conn.handle as usize]
    }

    /// `with_state` composed with `check_connected`: the liveness test every
    /// channel operation makes first. Fails exactly when the record's
    /// connected flag is down.
    pub fn check_connected(&self, conn: &Connection) -> (r: Result<u16, DisconnectedError>)
        requires
            self.wf(),
            conn.wf(),
        ensures
            self@[conn.handle as int].connected
                ==> r == Ok::<u16, DisconnectedError>(self@[conn.handle as int].handle),
            !self@[conn.handle as int].connected
                ==> r == Err::<u16, DisconnectedError>(DisconnectedError),
    {
        self.with_state(conn).check_connected()
    }

    /// Dispatch-path processing of a connect that completed for `handle`:
    /// the record becomes a fresh connected record.
    pub fn on_connected(&mut self, handle: u16)
        requires
            old(self).wf(),
            (handle as int) < CONNS_MAX as int,
        ensures
            final(self).wf(),
            final(self)@ == apply_link_event(old(self)@, LinkEvent::Connected(handle)),
    {
        self.states[handle as usize] = ConnectionState {
            handle,
            connected: true,
            tx_phys: 0,
            rx_phys: 0,
            att_mtu: 0,
            data_length: 0,
        };
    }

    /// Dispatch-path processing of a disconnect for `handle`: the record is
    /// reset, ending the lifetime of the connection.
    pub fn on_disconnected(&mut self, handle: u16)
        requires
            old(self).wf(),
            (handle as int) < CONNS_MAX as int,
        ensures
            final(self).wf(),
            final(self)@ == apply_link_event(old(self)@, LinkEvent::Disconnected(handle)),
    {
        self.states[handle as usize] = ConnectionState {
            handle,
            connected: false,
            tx_phys: 0,
            rx_phys: 0,
            att_mtu: 0,
            data_length: 0,
        };
    }

    /// Dispatch-path processing of a completed MTU negotiation for a live
    /// connection: records the agreed value and touches nothing else.
    pub fn on_att_mtu_exchanged(&mut self, conn: &Connection, att_mtu: u16)
        requires
            old(self).wf(),
            conn.wf(),
        ensures
            final(self).wf(),
            final(self)@ == old(self)@.update(
                conn.handle as int,
                ConnectionState { att_mtu, ..old(self)@[conn.handle as int] },
            ),
    {
        let st = &mut self.states[conn.handle as usize];
        st.att_mtu = att_mtu;
    }

    /// Dispatch-path processing of a completed data-length negotiation:
    /// records the agreed value and touches nothing else.
    pub fn on_data_length_updated(&mut self, conn: &Connection, data_length: u8)
        requires
            old(self).wf(),
            conn.wf(),
        ensures
            final(self).wf(),
            final(self)@ == old(self)@.update(
                conn.handle as int,
                ConnectionState { data_length, ..old(self)@[conn.handle as int] },
            ),
    {
        let st = &mut self.states[conn.handle as usize];
        st.data_length = data_length;
    }

    /// Records the PHY preferences negotiated for a live connection. Touches
    /// nothing else: in particular the connected flag is unchanged.
    pub fn set_phys(&mut self, conn: &Connection, tx_phys: u8, rx_phys: u8)
        requires
            old(self).wf(),
            conn.wf(),
        ensures
            final(self).wf(),
            final(self)@ == old(self)@.update(
                conn.handle as int,
                ConnectionState {
                    tx_phys,
                    rx_phys,
                    ..old(self)@[conn.handle as int]
                },
            ),
    {
        let st = &mut self.states[conn.handle as usize];
        st.tx_phys = tx_phys;
        st.rx_phys = rx_phys;
    }
}

/// A handle is connected after a history of link events exactly when the
/// history holds a connect for it with no later disconnect for it.
pub open spec fn connected_in_trace(t: Seq<LinkEvent>, h: u16) -> bool {
    exists|i: int|
        0 <= i < t.len() && t[i] == LinkEvent::Connected(h)
            && (forall|j: int| i < j < t.len() ==> t[j] != LinkEvent::Disconnected(h))
}

/// `check_connected` fails if and only if no successful connect has completed
/// for the handle, or a disconnect for it has since been processed: starting
/// from a fully reset table, the connected flag after any history of link
/// events equals `connected_in_trace`.
pub proof fn lemma_connected_iff_trace(s: Seq<ConnectionState>, t: Seq<LinkEvent>, h: u16)
    requires
        (h as int) < s.len(),
        !s[h as int].connected,
    ensures
        apply_link_trace(s, t)[h as int].connected <==> connected_in_trace(t, h),
        apply_link_trace(s, t).len() == s.len(),
    decreases t.len(),
{
    if t.len() == 0 {
        assert(!connected_in_trace(t, h));
    } else {
        let prefix = t.drop_last();
        let last = t.last();
        lemma_connected_iff_trace(s, prefix, h);
        let before = apply_link_trace(s, prefix);
        if last == LinkEvent::Connected(h) {
            assert(apply_link_trace(s, t)[h as int].connected);
            assert(t[t.len() - 1] == LinkEvent::Connected(h));
            assert(connected_in_trace(t, h)) by {
                assert(forall|j: int| t.len() - 1 < j < t.len() ==> t[j] != LinkEvent::Disconnected(h));
            }
        } else if last == LinkEvent::Disconnected(h) {
            assert(!apply_link_trace(s, t)[h as int].connected);
            assert(!connected_in_trace(t, h)) by {
                assert forall|i: int| 0 <= i < t.len() implies !(t[i] == LinkEvent::Connected(h)
                    && (forall|j: int| i < j < t.len() ==> t[j] != LinkEvent::Disconnected(h))) by {
                    if t[i] == LinkEvent::Connected(h) {
                        assert(t[t.len() - 1] == LinkEvent::Disconnected(h));
                    }
                }
            }
        } else {
            assert(apply_link_trace(s, t)[h as int].connected == before[h as int].connected);
            assert(connected_in_trace(prefix, h) ==> connected_in_trace(t, h)) by {
                if connected_in_trace(prefix, h) {
                    let i = choose|i: int|
                        0 <= i < prefix.len() && prefix[i] == LinkEvent::Connected(h)
                            && (forall|j: int|
                                i < j < prefix.len() ==> prefix[j] != LinkEvent::Disconnected(h));
                    assert(t[i] == LinkEvent::Connected(h));
                    assert forall|j: int| i < j < t.len() implies t[j]
                        != LinkEvent::Disconnected(h) by {
                        if j < t.len() - 1 {
                            assert(prefix[j] == t[j]);
                        } else {
                            assert(t[j] == last);
                        }
                    }
                }
            }
            assert(connected_in_trace(t, h) ==> connected_in_trace(prefix, h)) by {
                if connected_in_trace(t, h) {
                    let i = choose|i: int|
                        0 <= i < t.len() && t[i] == LinkEvent::Connected(h)
                            && (forall|j: int| i < j < t.len() ==> t[j] != LinkEvent::Disconnected(h));
                    assert(i < t.len() - 1);
                    assert(prefix[i] == LinkEvent::Connected(h));
                    assert(forall|j: int|
                        i < j < prefix.len() ==> prefix[j] != LinkEvent::Disconnected(h));
                }
            }
        }
    }
}

} // verus!
