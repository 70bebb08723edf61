//! The broadcast server: owns the registry and decides whether it runs.
use vstd::prelude::*;

use crate::registry::{all_accepted, queued, recipients, Delivery, Registry};

verus! {

/// The listening socket could not be bound on this port.
#[derive(Clone, Copy, Debug, PartialEq, Eq, Structural)]
pub struct BindError {
    pub port: u16,
}

/// A broadcast was asked of a server that has not finished starting.
#[derive(Clone, Copy, Debug, PartialEq, Eq, Structural)]
pub struct NotRunningError;

/// The abstract state of a server.
pub struct ServerView {
    pub port: u16,
    /// Whether the listener is bound and connections are being accepted.
    pub running: bool,
    /// The registered peers, in order of registration.
    pub peers: Seq<u128>,
    /// For each peer, in the same order, the texts queued on its channel.
    pub sent: Seq<Seq<Seq<char>>>,
}

pub struct WebSocketServer {
    port: u16,
    running: bool,
    registry: Registry,
}

/// A message injected through the server is observed by the connected peers
/// exactly as a relayed text frame is: starting from the same peers and logs,
/// with every channel open, both leave every log with the same text appended.
pub proof fn inject_matches_relay(
    peers: Seq<u128>,
    before: Seq<Seq<Seq<char>>>,
    text: Seq<char>,
    injected: Seq<Delivery>,
    after_inject: Seq<Seq<Seq<char>>>,
    relayed: Seq<Delivery>,
    after_relay: Seq<Seq<Seq<char>>>,
)
    requires
        recipients(injected) == peers,
        recipients(relayed) == peers,
        all_accepted(injected),
        all_accepted(relayed),
        queued(before, injected, text, after_inject),
        queued(before, relayed, text, after_relay),
    ensures
        recipients(injected) == recipients(relayed),
        after_inject == after_relay,
        forall|i: int| 0 <= i < before.len() ==> #[trigger] after_inject[i] == before[i].push(text),
{
    assert forall|i: int| 0 <= i < before.len() implies #[trigger] after_inject[i] == before[i].push(
        text,
    ) && after_relay[i] == before[i].push(text) by {
        assert(injected[i].accepted);
        assert(relayed[i].accepted);
    }
    assert(after_inject =~= after_relay);
}

impl View for WebSocketServer {
    type V = ServerView;

    closed spec fn view(&self) -> ServerView {
        ServerView {
            port: self.port,
            running: self.running,
            peers: self.registry@,
            sent: self.registry.logs(),
        }
    }
}

impl WebSocketServer {
    /// A server for `port` that has not started and has no peers.
    pub fn new(port: u16) -> (s: WebSocketServer)
        ensures
            s@.port == port,
            !s@.running,
            s@.peers == Seq::<u128>::empty(),
            s@.sent == Seq::<Seq<Seq<char>>>::empty(),
    {
        WebSocketServer { port, running: false, registry: Registry::new() }
    }

    pub fn port(&self) -> (p: u16)
        ensures
            p == self@.port,
    {
        self.port
    }

    pub fn is_running(&self) -> (r: bool)
        ensures
            r == self@.running,
    {
        self.running
    }

    /// Records the outcome of binding the listener. A successful bind makes the
    /// server run; a failed one is returned as `BindError` and leaves the server
    /// exactly as it was, so a server that had not started stays stopped.
    pub fn on_bind(&mut self, bound: bool) -> (r: Result<(), BindError>)
        ensures
            bound ==> r is Ok && final(self)@ == (ServerView { running: true, ..old(self)@ }),
            !bound ==> r == Err::<(), BindError>(BindError { port: old(self)@.port })
                && final(self)@ == old(self)@,
    {
        if bound {
            self.running = true;
            Ok(())
        } else {
            Err(BindError { port: self.port })
        }
    }

    /// Broadcasts `message` to every connected peer, as a peer's own text
    /// frame would be: it is queued once on each open channel. Before the
    /// server has started this fails with `NotRunningError` and changes nothing.
    pub fn broadcast(&mut self, message: &str) -> (r: Result<Vec<Delivery>, NotRunningError>)
        ensures
            old(self)@.running ==> (r matches Ok(report) && recipients(report@) == old(self)@.peers
                && old(self)@.peers.no_duplicates() && queued(
                old(self)@.sent,
                report@,
                message@,
                final(self)@.sent,
            ) && final(self)@ == (ServerView { sent: final(self)@.sent, ..old(self)@ })),
            !old(self)@.running ==> r == Err::<Vec<Delivery>, NotRunningError>(NotRunningError)
                && final(self)@ == old(self)@,
    {
        if !self.running {
            return Err(NotRunningError);
        }
        Ok(self.registry.broadcast(message))
    }

    pub fn registry(&self) -> (r: &Registry)
        ensures
            r@ == self@.peers,
            r.logs() == self@.sent,
    {
        &self.registry
    }

    /// The registry, for connection handlers to join, leave and relay through.
    /// Only the peers can change through it.
    pub fn registry_mut(&mut self) -> (r: &mut Registry)
        ensures
            r@ == old(self)@.peers,
            r.logs() == old(self)@.sent,
            final(self)@ == (ServerView { peers: final(r)@, sent: final(r).logs(), ..old(self)@ }),
    {
        &mut self.registry
    }
}

} // verus!
