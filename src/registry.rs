//! The registry of connected peers: identity to outbound channel.
use vstd::prelude::*;

use tokio::sync::mpsc::UnboundedSender;
use tokio_tungstenite::tungstenite::Message;

verus! {

/// One registered connection: its identity, the sending half of its
/// outbound queue, and the texts queued on that queue through this entry.
pub struct Peer {
    pub id: u128,
    tx: UnboundedSender<Message>,
    sent: Ghost<Seq<Seq<char>>>,
}

impl Peer {
    /// The texts queued on this peer's channel, oldest first.
    pub closed spec fn sent(&self) -> Seq<Seq<char>> {
        self.sent@
    }

    /// Relies on tokio's `UnboundedSender::send` with tungstenite's
    /// `Message::text`: queues `text` as one text frame on this peer's channel
    /// without blocking and returns `true`; when the channel's receiving half is
    /// already closed, queues nothing and returns `false`. Which of the two
    /// happens depends on the other side, so it is not promised.
    #[verifier::external_body]
    fn send_text(&mut self, text: &str) -> (accepted: bool)
        ensures
            final(self).id == old(self).id,
            accepted ==> final(self).sent() == old(self).sent().push(text@),
            !accepted ==> final(self).sent() == old(self).sent(),
    {
        self.tx.send(Message::text(text)).is_ok()
    }
}

/// What happened to one recipient during a broadcast.
#[derive(Clone, Copy, Debug, PartialEq, Eq, Structural)]
pub struct Delivery {
    pub peer: u128,
    /// `false` when the peer's channel was already closed and the message was skipped.
    pub accepted: bool,
}

/// `register` was asked to insert an identity that is already present.
#[derive(Clone, Copy, Debug, PartialEq, Eq, Structural)]
pub struct DuplicateId {
    pub id: u128,
}

/// The connected peers, in order of registration, each identity at most once.
pub struct Registry {
    peers: Vec<Peer>,
}

/// The peers that a broadcast report names, in the order they were served.
pub open spec fn recipients(report: Seq<Delivery>) -> Seq<u128> {
    report.map_values(|d: Delivery| d.peer)
}

/// The per-peer logs `after` are `before` with `text` appended to the log of
/// each peer whose channel accepted it, and left alone elsewhere.
pub open spec fn queued(
    before: Seq<Seq<Seq<char>>>,
    report: Seq<Delivery>,
    text: Seq<char>,
    after: Seq<Seq<Seq<char>>>,
) -> bool {
    &&& report.len() == before.len()
    &&& after.len() == before.len()
    &&& forall|i: int|
        0 <= i < before.len() ==> #[trigger] after[i] == if report[i].accepted {
            before[i].push(text)
        } else {
            before[i]
        }
}

/// No recipient's channel was found closed.
pub open spec fn all_accepted(report: Seq<Delivery>) -> bool {
    forall|i: int| 0 <= i < report.len() ==> #[trigger] report[i].accepted
}

/// The registry `after` is `before` without the peer `id`: its entry, if there
/// is one, is taken out together with its log, and the other peers keep their
/// order and their logs.
pub open spec fn departed(before: Registry, after: Registry, id: u128) -> bool {
    if before@.contains(id) {
        exists|i: int|
            0 <= i < before@.len() && before@[i] == id && after@ == before@.remove(i)
                && after.logs() == before.logs().remove(i)
    } else {
        after@ == before@ && after.logs() == before.logs()
    }
}

/// `after` is `before` with the one occurrence of `id` taken out, order kept;
/// or `before` itself where `id` does not occur.
pub open spec fn removal_of(before: Seq<u128>, after: Seq<u128>, id: u128) -> bool {
    if before.contains(id) {
        exists|i: int| 0 <= i < before.len() && before[i] == id && after == before.remove(i)
    } else {
        after == before
    }
}

/// Every registered peer receives a relayed text exactly once, its sender
/// among them, and nobody else receives it: the report names each registered
/// identity once and no other; and where every channel is open, each peer's
/// log, the sender's included, grows by that one text and nothing else.
pub proof fn relay_reaches_every_peer_once(
    peers: Seq<u128>,
    sender: u128,
    report: Seq<Delivery>,
    before: Seq<Seq<Seq<char>>>,
    text: Seq<char>,
    after: Seq<Seq<Seq<char>>>,
)
    requires
        peers.no_duplicates(),
        peers.contains(sender),
        recipients(report) == peers,
        all_accepted(report),
        queued(before, report, text, after),
    ensures
        recipients(report).to_multiset().count(sender) == 1,
        forall|p: u128|
            peers.contains(p) ==> #[trigger] recipients(report).to_multiset().count(p) == 1,
        forall|p: u128|
            !peers.contains(p) ==> #[trigger] recipients(report).to_multiset().count(p) == 0,
        after.len() == peers.len(),
        forall|i: int| 0 <= i < peers.len() ==> #[trigger] after[i] == before[i].push(text),
        exists|k: int| 0 <= k < peers.len() && peers[k] == sender && after[k] == before[k].push(text),
{
    broadcast use vstd::seq_lib::group_to_multiset_ensures;

    peers.lemma_multiset_has_no_duplicates();
    assert forall|i: int| 0 <= i < peers.len() implies #[trigger] after[i] == before[i].push(text) by {
        assert(report[i].accepted);
    }
    let k = choose|k: int| 0 <= k < peers.len() && peers[k] == sender;
    assert(after[k] == before[k].push(text));
}

/// Two broadcasts reach each peer in the order they were made: where every
/// channel stays open through both, each peer's log grows by the first text
/// and then the second.
pub proof fn broadcasts_keep_order(
    logs0: Seq<Seq<Seq<char>>>,
    first: Seq<Delivery>,
    text1: Seq<char>,
    logs1: Seq<Seq<Seq<char>>>,
    second: Seq<Delivery>,
    text2: Seq<char>,
    logs2: Seq<Seq<Seq<char>>>,
)
    requires
        all_accepted(first),
        all_accepted(second),
        queued(logs0, first, text1, logs1),
        queued(logs1, second, text2, logs2),
    ensures
        logs2.len() == logs0.len(),
        forall|i: int| 0 <= i < logs0.len() ==> #[trigger] logs2[i] == logs0[i] + seq![text1, text2],
{
    assert forall|i: int| 0 <= i < logs0.len() implies #[trigger] logs2[i] == logs0[i] + seq![
        text1,
        text2,
    ] by {
        assert(first[i].accepted);
        assert(second[i].accepted);
        assert(logs2[i] =~= logs0[i] + seq![text1, text2]);
    }
}

/// Once a peer has left, no later broadcast is attempted against it (its
/// entry, and with it the sending half of its channel, is gone), while every
/// other peer that was registered is still served.
pub proof fn no_delivery_after_leave(
    before: Seq<u128>,
    after: Seq<u128>,
    id: u128,
    report: Seq<Delivery>,
)
    requires
        before.no_duplicates(),
        removal_of(before, after, id),
        recipients(report) == after,
    ensures
        !recipients(report).contains(id),
        forall|p: u128| p != id ==> (#[trigger] recipients(report).contains(p) <==> before.contains(p)),
{
    if before.contains(id) {
        let i = choose|i: int| 0 <= i < before.len() && before[i] == id && after == before.remove(i);
        assert forall|j: int| 0 <= j < after.len() implies after[j] != id by {
            if j < i {
                assert(after[j] == before[j]);
            } else {
                assert(after[j] == before[j + 1]);
            }
        }
        assert forall|p: u128| p != id && before.contains(p) implies after.contains(p) by {
            let k = choose|k: int| 0 <= k < before.len() && before[k] == p;
            if k < i {
                assert(after[k] == p);
            } else {
                assert(k != i);
                assert(after[k - 1] == p);
            }
        }
        assert forall|p: u128| after.contains(p) implies before.contains(p) by {
            let k = choose|k: int| 0 <= k < after.len() && after[k] == p;
            if k < i {
                assert(before[k] == p);
            } else {
                assert(before[k + 1] == p);
            }
        }
    }
}

impl View for Registry {
    type V = Seq<u128>;

    /// The identities of the registered peers, in order of registration.
    closed spec fn view(&self) -> Seq<u128> {
        self.peers@.map_values(|p: Peer| p.id)
    }
}

impl Registry {
    /// Every identity occurs at most once.
    #[verifier::type_invariant]
    spec fn unique_ids(&self) -> bool {
        self@.no_duplicates()
    }

    /// For each registered peer, in the order of `self@`, the texts queued on
    /// its channel since it was registered.
    pub closed spec fn logs(&self) -> Seq<Seq<Seq<char>>> {
        self.peers@.map_values(|p: Peer| p.sent())
    }

    pub fn new() -> (r: Registry)
        ensures
            r@ == Seq::<u128>::empty(),
            r.logs() == Seq::<Seq<Seq<char>>>::empty(),
    {
        let r = Registry { peers: Vec::new() };
        assert(r@ =~= Seq::<u128>::empty());
        assert(r.logs() =~= Seq::<Seq<Seq<char>>>::empty());
        r
    }

    pub fn len(&self) -> (n: usize)
        ensures
            n == self@.len(),
    {
        self.peers.len()
    }

    /// The position of `id` among the peers, if it is registered.
    fn position(&self, id: u128) -> (r: Option<usize>)
        ensures
            r is None ==> !self@.contains(id),
            r matches Some(i) ==> i < self@.len() && self@[i as int] == id,
    {
        let mut i: usize = 0;
        while i < self.peers.len()
            invariant
                i <= self.peers@.len(),
                forall|j: int| 0 <= j < i ==> self@[j] != id,
            decreases self.peers@.len() - i,
        {
            if self.peers[i].id == id {
                return Some(i);
            }
            i += 1;
        }
        None
    }

    pub fn contains(&self, id: u128) -> (r: bool)
        ensures
            r == self@.contains(id),
    {
        self.position(id).is_some()
    }

    /// Adds a peer whose channel is `tx`, with nothing queued through it yet.
    /// Refused, with the registry unchanged, when `id` is already present.
    pub fn register(&mut self, id: u128, tx: UnboundedSender<Message>) -> (r: Result<(), DuplicateId>)
        ensures
            final(self)@.no_duplicates(),
            old(self)@.contains(id) ==> r == Err::<(), DuplicateId>(DuplicateId { id })
                && final(self)@ == old(self)@ && final(self).logs() == old(self).logs(),
            !old(self)@.contains(id) ==> r is Ok && final(self)@ == old(self)@.push(id)
                && final(self).logs() == old(self).logs().push(Seq::<Seq<char>>::empty()),
    {
        proof {
            use_type_invariant(&*self);
        }
        if self.position(id).is_some() {
            return Err(DuplicateId { id });
        }
        let mut peers: Vec<Peer> = Vec::new();
        std::mem::swap(&mut peers, &mut self.peers);
        peers.push(Peer { id, tx, sent: Ghost(Seq::empty()) });
        assert(peers@.map_values(|p: Peer| p.id) =~= old(self)@.push(id));
        assert(peers@.map_values(|p: Peer| p.sent()) =~= old(self).logs().push(
            Seq::<Seq<char>>::empty(),
        ));
        self.peers = peers;
        Ok(())
    }

    /// Removes the peer `id` if present, and with it the sending half of its
    /// channel, so nothing more can be queued for it; does nothing otherwise.
    /// Returns whether it was present. The other peers and their logs keep
    /// their order.
    pub fn unregister(&mut self, id: u128) -> (removed: bool)
        ensures
            final(self)@.no_duplicates(),
            removed == old(self)@.contains(id),
            removal_of(old(self)@, final(self)@, id),
            !final(self)@.contains(id),
            departed(*old(self), *final(self), id),
    {
        proof {
            use_type_invariant(&*self);
        }
        match self.position(id) {
            None => false,
            Some(i) => {
                let mut peers: Vec<Peer> = Vec::new();
                std::mem::swap(&mut peers, &mut self.peers);
                peers.remove(i);
                let ghost ids = peers@.map_values(|p: Peer| p.id);
                assert(ids =~= old(self)@.remove(i as int));
                assert(peers@.map_values(|p: Peer| p.sent()) =~= old(self).logs().remove(i as int));
                assert forall|j: int| 0 <= j < ids.len() implies ids[j] != id by {
                    if j < i {
                        assert(ids[j] == old(self)@[j]);
                    } else {
                        assert(ids[j] == old(self)@[j + 1]);
                    }
                }
                self.peers = peers;
                true
            },
        }
    }

    /// Queues `text` on the channel of every registered peer, once each, in
    /// registration order. A peer whose channel is already closed is skipped
    /// and reported with `accepted == false`; the others are still served.
    /// The set of peers does not change.
    pub fn broadcast(&mut self, text: &str) -> (report: Vec<Delivery>)
        ensures
            recipients(report@) == old(self)@,
            old(self)@.no_duplicates(),
            final(self)@ == old(self)@,
            queued(old(self).logs(), report@, text@, final(self).logs()),
    {
        proof {
            use_type_invariant(&*self);
        }
        let mut peers: Vec<Peer> = Vec::new();
        std::mem::swap(&mut peers, &mut self.peers);
        let ghost before = peers@;
        let mut report: Vec<Delivery> = Vec::new();
        let mut i: usize = 0;
        while i < peers.len()
            invariant
                i <= peers@.len(),
                peers@.len() == before.len(),
                report@.len() == i,
                forall|j: int| 0 <= j < peers@.len() ==> #[trigger] peers@[j].id == before[j].id,
                forall|j: int| 0 <= j < i ==> #[trigger] report@[j].peer == before[j].id,
                forall|j: int|
                    0 <= j < i ==> #[trigger] peers@[j].sent() == if report@[j].accepted {
                        before[j].sent().push(text@)
                    } else {
                        before[j].sent()
                    },
                forall|j: int| i <= j < peers@.len() ==> #[trigger] peers@[j].sent() == before[j].sent(),
            decreases peers@.len() - i,
        {
            let id = peers[i].id;
            let accepted = peers[i].send_text(text);
            report.push(Delivery { peer: id, accepted });
            i += 1;
        }
        assert(recipients(report@) =~= old(self)@);
        assert(peers@.map_values(|p: Peer| p.id) =~= old(self)@);
        self.peers = peers;
        report
    }
}

} // verus!
