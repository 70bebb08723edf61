//! The lifecycle of one connection, as a state machine driven by the events
//! that its socket produces.
use vstd::prelude::*;

use tokio::sync::mpsc::UnboundedReceiver;
use tokio_tungstenite::tungstenite::Message;

use crate::channel::{fresh_peer_id, open_channel};
use crate::registry::{departed, queued, recipients, removal_of, Delivery, Registry};

verus! {

#[derive(Clone, Copy, Debug, PartialEq, Eq, Structural)]
pub enum Phase {
    /// The socket is being upgraded; no identity is registered yet.
    Handshaking,
    /// Registered; frames are read and the outbound queue is drained.
    Active,
    /// Unregistered; both loops are being torn down.
    Closing,
    /// Terminal.
    Closed,
}

/// What the inbound loop read from the socket.
pub enum Inbound {
    /// A text frame.
    Text(String),
    /// A close frame.
    Close,
    /// A binary, ping, pong or raw frame: consumed and not forwarded.
    Ignored,
    /// The read failed or the stream ended.
    Failed,
}

/// The abstract state of a connection.
pub struct ConnView {
    pub phase: Phase,
    /// The registered identity; meaningful from `Active` on.
    pub id: u128,
}

pub struct Connection {
    phase: Phase,
    id: u128,
}

impl View for Connection {
    type V = ConnView;

    closed spec fn view(&self) -> ConnView {
        ConnView { phase: self.phase, id: self.id }
    }
}

/// The phase after an inbound event, from the phase before it.
pub open spec fn phase_after_inbound(phase: Phase, event: Inbound) -> Phase {
    match (phase, event) {
        (Phase::Active, Inbound::Close) => Phase::Closing,
        (Phase::Active, Inbound::Failed) => Phase::Closing,
        _ => phase,
    }
}

impl Connection {
    /// A freshly accepted socket, before its upgrade.
    pub fn new() -> (c: Connection)
        ensures
            c@.phase == Phase::Handshaking,
    {
        Connection { phase: Phase::Handshaking, id: 0 }
    }

    pub fn phase(&self) -> (p: Phase)
        ensures
            p == self@.phase,
    {
        self.phase
    }

    pub fn id(&self) -> (id: u128)
        ensures
            id == self@.id,
    {
        self.id
    }

    /// The upgrade failed: the connection ends without ever being registered.
    pub fn handshake_failed(&mut self)
        ensures
            old(self)@.phase == Phase::Handshaking ==> final(self)@ == (ConnView {
                phase: Phase::Closed,
                id: old(self)@.id,
            }),
            old(self)@.phase != Phase::Handshaking ==> final(self)@ == old(self)@,
    {
        if self.phase == Phase::Handshaking {
            self.phase = Phase::Closed;
        }
    }

    /// The upgrade succeeded: draw a random identity, open the outbound queue
    /// and register its sending half. Returns the receiving half, which the
    /// outbound loop drains. Should the identity already be taken, nothing is
    /// registered and the connection is closed.
    pub fn activate(&mut self, registry: &mut Registry) -> (rx: Option<UnboundedReceiver<Message>>)
        ensures
            old(self)@.phase != Phase::Handshaking ==> rx is None && final(self)@ == old(self)@
                && final(registry)@ == old(registry)@ && final(registry).logs() == old(registry).logs(),
            old(self)@.phase == Phase::Handshaking && rx is Some ==> final(self)@.phase
                == Phase::Active && !old(registry)@.contains(final(self)@.id) && final(registry)@
                == old(registry)@.push(final(self)@.id) && final(registry).logs() == old(registry).logs().push(Seq::<Seq<char>>::empty()),
            old(self)@.phase == Phase::Handshaking && rx is None ==> final(self)@.phase
                == Phase::Closed && old(registry)@.contains(final(self)@.id) && final(registry)@
                == old(registry)@ && final(registry).logs() == old(registry).logs(),
    {
        if self.phase != Phase::Handshaking {
            return None;
        }
        let id = fresh_peer_id();
        let (tx, rx) = open_channel();
        self.id = id;
        match registry.register(id, tx) {
            Ok(()) => {
                self.phase = Phase::Active;
                Some(rx)
            },
            Err(_) => {
                self.phase = Phase::Closed;
                None
            },
        }
    }

    /// One event of the inbound loop. While active, a text frame is queued on
    /// the channel of every registered peer (the sender included) and the
    /// report is returned; a close frame or a failed read unregisters the connection and
    /// moves it to `Closing`; anything else is ignored. In any other phase the
    /// event is ignored. Only a text frame queues anything.
    pub fn on_inbound(&mut self, registry: &mut Registry, event: Inbound) -> (report: Vec<
        Delivery,
    >)
        ensures
            final(self)@.id == old(self)@.id,
            final(self)@.phase == phase_after_inbound(old(self)@.phase, event),
            old(self)@.phase == Phase::Active ==> (event matches Inbound::Text(text) ==> recipients(report@) == old(registry)@ && old(registry)@.no_duplicates() && final(registry)@ == old(registry)@ && queued(old(registry).logs(), report@, text@, final(registry).logs())),
            old(self)@.phase == Phase::Active && (event is Close || event is Failed)
                ==> report@.len() == 0 && removal_of(old(registry)@, final(registry)@, old(self)@.id)
                && !final(registry)@.contains(old(self)@.id) && departed(*old(registry), *final(registry), old(self)@.id),
            !(old(self)@.phase == Phase::Active && (event is Text || event is Close
                || event is Failed)) ==> report@.len() == 0 && final(registry)@ == old(registry)@
                && final(registry).logs() == old(registry).logs(),
    {
        if self.phase != Phase::Active {
            return Vec::new();
        }
        match event {
            Inbound::Text(text) => registry.broadcast(text.as_str()),
            Inbound::Close | Inbound::Failed => {
                registry.unregister(self.id);
                self.phase = Phase::Closing;
                Vec::new()
            },
            Inbound::Ignored => Vec::new(),
        }
    }

    /// Writing to the socket failed: unregister and move to `Closing`.
    /// Only an active connection changes.
    pub fn on_write_failed(&mut self, registry: &mut Registry)
        ensures
            final(self)@.id == old(self)@.id,
            old(self)@.phase == Phase::Active ==> final(self)@.phase == Phase::Closing
                && removal_of(old(registry)@, final(registry)@, old(self)@.id)
                && !final(registry)@.contains(old(self)@.id) && departed(
                *old(registry),
                *final(registry),
                old(self)@.id,
            ),
            old(self)@.phase != Phase::Active ==> final(self)@ == old(self)@ && final(registry)@
                == old(registry)@ && final(registry).logs() == old(registry).logs(),
    {
        if self.phase == Phase::Active {
            registry.unregister(self.id);
            self.phase = Phase::Closing;
        }
    }

    /// Both loops have ended and the socket is closed. The identity is removed
    /// once more, which does nothing if it is already gone, so that whichever
    /// loop ends first leaves no entry behind.
    pub fn finish(&mut self, registry: &mut Registry)
        ensures
            final(self)@ == (ConnView { phase: Phase::Closed, id: old(self)@.id }),
            old(self)@.phase == Phase::Active || old(self)@.phase == Phase::Closing
                ==> removal_of(old(registry)@, final(registry)@, old(self)@.id)
                && !final(registry)@.contains(old(self)@.id) && departed(
                *old(registry),
                *final(registry),
                old(self)@.id,
            ),
            old(self)@.phase == Phase::Handshaking || old(self)@.phase == Phase::Closed
                ==> final(registry)@ == old(registry)@ && final(registry).logs() == old(registry).logs(),
    {
        if self.phase == Phase::Active || self.phase == Phase::Closing {
            registry.unregister(self.id);
        }
        self.phase = Phase::Closed;
    }
}

} // verus!
