//! The peer provider: the table of the peers that this peer knows, with the
//! rules by which it grows, and the decisions that the peer's tasks take on it.

use crate::api::string_views;
use crate::config::opt_view;
use crate::delivery::client::Client;
use crate::use_case::gossip::{gossip_round, open_channel, GossipRound};
use crate::use_case::peer_table::{
    table_entries, table_insert, table_insert_if_absent, table_keys, table_snapshot,
    table_with_capacity, entry_keys, table_copy,
};
use crate::use_case::gossip::channel_capacity;
use crate::use_case::relay::{relay_step, RelayAction, RelayEvent};
use dashmap::DashMap;
use std::sync::Arc;
use tokio::sync::broadcast::Sender;
use vstd::prelude::*;

verus! {

broadcast use vstd::seq_lib::group_seq_properties;

/// The table after learning of each of `peers` in turn: a peer that is not in
/// the table yet is added as not subscribed; one that is keeps its flag.
pub open spec fn learn_all(table: Map<Seq<char>, bool>, peers: Seq<Seq<char>>) -> Map<
    Seq<char>,
    bool,
>
    decreases peers.len(),
{
    if peers.len() == 0 {
        table
    } else {
        let before = learn_all(table, peers.drop_last());
        if before.contains_key(peers.last()) {
            before
        } else {
            before.insert(peers.last(), false)
        }
    }
}

/// Whether the peer `k` is one to dial after the known peer `known` was
/// contacted: it is in the table, it is not marked as subscribed, and it is
/// neither this peer (`me`) nor the known peer.
pub open spec fn is_dial_candidate(
    table: Map<Seq<char>, bool>,
    me: Seq<char>,
    known: Seq<char>,
    k: Seq<char>,
) -> bool {
    &&& table.contains_key(k)
    &&& !table[k]
    &&& k != me
    &&& k != known
}

/// The table with which a peer starts: itself, and the peer it was told to
/// connect to, if any, neither of them subscribed.
pub open spec fn initial_entries(me: Seq<char>, known: Option<Seq<char>>) -> Map<Seq<char>, bool> {
    let mine = Map::<Seq<char>, bool>::empty().insert(me, false);
    match known {
        Some(k) => mine.insert(k, false),
        None => mine,
    }
}

/// Learning of peers keeps every peer of the table with its flag, and adds
/// each learnt peer that was not there as not subscribed; nothing else is
/// added.
pub proof fn lemma_learn_all(table: Map<Seq<char>, bool>, peers: Seq<Seq<char>>)
    ensures
        forall|k: Seq<char>|
            #[trigger] learn_all(table, peers).contains_key(k) <==> (table.contains_key(k)
                || peers.contains(k)),
        forall|k: Seq<char>| table.contains_key(k) ==> #[trigger] learn_all(table, peers)[k] == table[k],
        forall|k: Seq<char>|
            !table.contains_key(k) && peers.contains(k) ==> #[trigger] learn_all(table, peers)[k]
                == false,
    decreases peers.len(),
{
    if peers.len() == 0 {
        assert forall|k: Seq<char>| !peers.contains(k) by {}
    } else {
        let rest = peers.drop_last();
        lemma_learn_all(table, rest);
        let before = learn_all(table, rest);
        let last = peers.last();
        assert(learn_all(table, peers) == (if before.contains_key(last) {
            before
        } else {
            before.insert(last, false)
        }));
        assert forall|k: Seq<char>| peers.contains(k) <==> (rest.contains(k) || k == peers.last()) by {
            if peers.contains(k) && k != peers.last() {
                let i = choose|i: int| 0 <= i < peers.len() && peers[i] == k;
                assert(rest[i] == k);
            }
            if rest.contains(k) {
                let i = choose|i: int| 0 <= i < rest.len() && rest[i] == k;
                assert(peers[i] == k);
            }
            if k == peers.last() {
                assert(peers[peers.len() - 1] == k);
            }
        }
    }
}

/// The peer table with which a peer starts: its own address and, if one was
/// given, the address of the peer to connect to, both as not subscribed.
pub fn initial_table(my_address: &String, known_peer: &Option<String>) -> (table: DashMap<
    String,
    bool,
>)
    ensures
        table_entries(table) == initial_entries(my_address@, opt_view(*known_peer)),
{
    let mut table = table_with_capacity(2);
    table_insert(&mut table, my_address.clone(), false);
    match known_peer {
        Some(remote) => {
            table_insert(&mut table, remote.clone(), false);
        },
        None => {},
    }
    table
}

/// Marks `peer` as subscribed in a peer table. A subscription task does this
/// in its own copy of the table (see `PeerProvider::peer_table_copy`); the
/// provider's table is not reached by it.
pub fn mark_subscribed(table: &mut DashMap<String, bool>, peer: String)
    ensures
        table_entries(*final(table)) == table_entries(*old(table)).insert(peer@, true),
{
    table_insert(table, peer, true);
}

/// The state that a peer shares between its tasks: the peers it knows, the
/// channel on which it broadcasts gossip, its own address and its client.
pub struct PeerProvider {
    /// Each known peer's address, mapped to whether it is marked as
    /// subscribed. The provider's own operations only ever mark peers as not
    /// subscribed; a peer is marked as subscribed only in a table that the
    /// provider was made with.
    peers: DashMap<String, bool>,
    sender: Arc<Sender<String>>,
    my_address: String,
    client: Client,
}

impl PeerProvider {
    /// The entries of the peer table.
    pub closed spec fn table(&self) -> Map<Seq<char>, bool> {
        table_entries(self.peers)
    }

    /// This peer's own address.
    pub closed spec fn address(&self) -> Seq<char> {
        self.my_address@
    }

    /// The channel on which this peer broadcasts gossip.
    pub closed spec fn channel(&self) -> Arc<Sender<String>> {
        self.sender
    }

    /// The capacity with which the gossip channel was opened.
    pub closed spec fn gossip_capacity(&self) -> nat {
        channel_capacity(*self.sender)
    }

    /// The address that this peer's client announces.
    pub closed spec fn announced(&self) -> Seq<char> {
        self.client@
    }

    /// A provider over the given table, for the peer at `my_address`, with a
    /// gossip channel that buffers `broadcast_size` messages.
    pub fn new(peers: DashMap<String, bool>, my_address: String, broadcast_size: usize) -> (p:
        PeerProvider)
        requires
            0 < broadcast_size <= usize::MAX / 2,
        ensures
            p.table() == table_entries(peers),
            p.address() == my_address@,
            p.announced() == my_address@,
            p.gossip_capacity() == broadcast_size,
    {
        let sender = open_channel(broadcast_size);
        let client = Client::new(my_address.clone());
        PeerProvider { peers, sender: Arc::new(sender), my_address, client }
    }

    /// This peer's own address.
    pub fn my_address(&self) -> (a: &String)
        ensures
            a@ == self.address(),
    {
        &self.my_address
    }

    /// A copy of the peer table, a map of its own.
    pub fn peer_table_copy(&self) -> (copy: DashMap<String, bool>)
        ensures
            table_entries(copy) == self.table(),
    {
        table_copy(&self.peers)
    }

    /// The entries of the peer table, each once, in no particular order.
    pub fn peer_entries(&self) -> (entries: Vec<(String, bool)>)
        ensures
            entry_keys(entries@).no_duplicates(),
            forall|i: int|
                #![trigger entries@[i]]
                0 <= i < entries.len() ==> self.table().contains_key(entries@[i].0@)
                    && self.table()[entries@[i].0@] == entries@[i].1,
            forall|k: Seq<char>|
                self.table().contains_key(k) ==> #[trigger] entry_keys(entries@).contains(k),
    {
        table_snapshot(&self.peers)
    }

    /// A copy of the client with which this peer calls others.
    pub fn client(&self) -> (c: Client)
        ensures
            c@ == self.announced(),
    {
        self.client.clone()
    }

    /// The channel on which gossip is broadcast.
    pub fn gossip_sender(&self) -> (tx: Arc<Sender<String>>)
        ensures
            tx == self.channel(),
    {
        Arc::clone(&self.sender)
    }

    /// Records that the peer at `peer` was reached: it is in the table as
    /// not subscribed, whatever it was before.
    pub fn mark_seen(&mut self, peer: String)
        ensures
            final(self).table() == old(self).table().insert(peer@, false),
            final(self).address() == old(self).address(),
            final(self).announced() == old(self).announced(),
    {
        table_insert(&mut self.peers, peer, false);
    }

    /// Records peers that were heard of: each one not yet in the table is
    /// added as not subscribed.
    pub fn learn(&mut self, peers: Vec<String>)
        ensures
            final(self).table() == learn_all(old(self).table(), string_views(peers@)),
            final(self).address() == old(self).address(),
            final(self).announced() == old(self).announced(),
    {
        let n = peers.len();
        let mut i: usize = 0;
        while i < n
            invariant
                n == peers.len(),
                i <= n,
                self.table() == learn_all(old(self).table(), string_views(peers@).take(i as int)),
                self.address() == old(self).address(),
                self.announced() == old(self).announced(),
            decreases n - i,
        {
            let p = peers[i].clone();
            table_insert_if_absent(&mut self.peers, p, false);
            proof {
                let views = string_views(peers@);
                assert(views.take(i + 1).drop_last() =~= views.take(i as int));
            }
            i = i + 1;
        }
        assert(string_views(peers@).take(n as int) =~= string_views(peers@));
    }

    /// Records how the first peer this one was told of answered: whether or
    /// not it answered, it is in the table as not subscribed; when it
    /// answered, the peers it named are learnt.
    ///
    /// Returns whether to subscribe to the first peer: exactly when it
    /// answered.
    pub fn on_known_peer_reply(&mut self, known: String, reply: Option<Vec<String>>) -> (subscribe:
        bool)
        ensures
            subscribe == reply is Some,
            final(self).table() == (match reply {
                Some(named) => learn_all(
                    old(self).table().insert(known@, false),
                    string_views(named@),
                ),
                None => old(self).table().insert(known@, false),
            }),
            final(self).address() == old(self).address(),
            final(self).announced() == old(self).announced(),
    {
        self.mark_seen(known);
        match reply {
            Some(named) => {
                self.learn(named);
                true
            },
            None => false,
        }
    }

    /// The peers to dial once the first peer `known` was contacted: every
    /// peer of the table that is not marked as subscribed, other than
    /// this peer and `known`; each once, in no particular order.
    pub fn dial_candidates(&self, known: &String) -> (candidates: Vec<String>)
        ensures
            string_views(candidates@).no_duplicates(),
            forall|k: Seq<char>|
                #[trigger] string_views(candidates@).contains(k) <==> is_dial_candidate(
                    self.table(),
                    self.address(),
                    known@,
                    k,
                ),
    {
        let entries = table_snapshot(&self.peers);
        let ghost keys = entry_keys(entries@);
        let mut out: Vec<String> = Vec::new();
        let n = entries.len();
        let mut i: usize = 0;
        while i < n
            invariant
                n == entries.len(),
                i <= n,
                keys == entry_keys(entries@),
                keys.no_duplicates(),
                forall|j: int|
                    #![trigger entries@[j]]
                    0 <= j < n ==> self.table().contains_key(entries@[j].0@)
                        && self.table()[entries@[j].0@] == entries@[j].1,
                string_views(out@).no_duplicates(),
                forall|k: Seq<char>|
                    #[trigger] string_views(out@).contains(k) <==> (exists|j: int|
                        0 <= j < i && #[trigger] keys[j] == k) && is_dial_candidate(
                        self.table(),
                        self.address(),
                        known@,
                        k,
                    ),
            decreases n - i,
        {
            let ghost before = string_views(out@);
            let key = &entries[i].0;
            let subscribed = entries[i].1;
            let ghost k = keys[i as int];
            assert(k == key@);
            if !subscribed && *key != self.my_address && *key != *known {
                out.push(key.clone());
                assert(string_views(out@) =~= before.push(k));
                assert forall|j: int| 0 <= j < before.len() implies before[j] != k by {
                    assert(before.contains(before[j]));
                    let m = choose|m: int| 0 <= m < i && keys[m] == before[j];
                }
                assert forall|x: Seq<char>|
                    #[trigger] string_views(out@).contains(x) <==> (exists|j: int|
                        0 <= j < i + 1 && #[trigger] keys[j] == x) && is_dial_candidate(
                        self.table(),
                        self.address(),
                        known@,
                        x,
                    ) by {
                    if string_views(out@).contains(x) && x != k {
                        let m = choose|m: int|
                            0 <= m < string_views(out@).len() && string_views(out@)[m] == x;
                        assert(before[m] == x);
                        assert(before.contains(x));
                    }
                    if (exists|j: int| 0 <= j < i + 1 && #[trigger] keys[j] == x) && is_dial_candidate(
                        self.table(),
                        self.address(),
                        known@,
                        x,
                    ) {
                        let j = choose|j: int| 0 <= j < i + 1 && #[trigger] keys[j] == x;
                        if j < i {
                            assert(before.contains(x));
                            let m = choose|m: int| 0 <= m < before.len() && before[m] == x;
                            assert(string_views(out@)[m] == x);
                        } else {
                            assert(string_views(out@)[before.len() as int] == x);
                        }
                    }
                }
            } else {
                assert forall|x: Seq<char>|
                    #[trigger] string_views(out@).contains(x) <==> (exists|j: int|
                        0 <= j < i + 1 && #[trigger] keys[j] == x) && is_dial_candidate(
                        self.table(),
                        self.address(),
                        known@,
                        x,
                    ) by {
                    if (exists|j: int| 0 <= j < i + 1 && #[trigger] keys[j] == x) && is_dial_candidate(
                        self.table(),
                        self.address(),
                        known@,
                        x,
                    ) {
                        let j = choose|j: int| 0 <= j < i + 1 && #[trigger] keys[j] == x;
                        if j == i {
                            assert(self.table()[entries@[j].0@] == entries@[j].1);
                        }
                    }
                }
            }
            i = i + 1;
        }
        assert forall|k: Seq<char>|
            #[trigger] string_views(out@).contains(k) <==> is_dial_candidate(
                self.table(),
                self.address(),
                known@,
                k,
            ) by {
            if is_dial_candidate(self.table(), self.address(), known@, k) {
                assert(keys.contains(k));
                let j = choose|j: int| 0 <= j < keys.len() && keys[j] == k;
            }
        }
        out
    }

    /// Records how a dialled peer answered: one that answered is in the table
    /// as not subscribed; one that did not is kept as it was, or added as not
    /// subscribed.
    ///
    /// Returns whether to subscribe to the peer: exactly when it answered.
    pub fn on_dial_reply(&mut self, peer: String, reached: bool) -> (subscribe: bool)
        ensures
            subscribe == reached,
            reached ==> final(self).table() == old(self).table().insert(peer@, false),
            !reached ==> final(self).table() == (if old(self).table().contains_key(peer@) {
                old(self).table()
            } else {
                old(self).table().insert(peer@, false)
            }),
            final(self).address() == old(self).address(),
            final(self).announced() == old(self).announced(),
    {
        if reached {
            self.mark_seen(peer);
            true
        } else {
            table_insert_if_absent(&mut self.peers, peer, false);
            false
        }
    }

    /// Adds a peer that asked to be added, as not subscribed, and answers
    /// with every peer of the table, itself included, each once.
    pub fn add_peer(&mut self, new_peer_address: String) -> (known: Vec<String>)
        ensures
            final(self).table() == old(self).table().insert(new_peer_address@, false),
            final(self).address() == old(self).address(),
            final(self).announced() == old(self).announced(),
            string_views(known@).no_duplicates(),
            string_views(known@).to_set() == final(self).table().dom(),
    {
        self.mark_seen(new_peer_address);
        table_keys(&self.peers)
    }

    /// One tick of the gossip producer on this peer's channel.
    pub fn gossip_round(&self) -> (round: GossipRound)
        ensures
            round matches GossipRound::Sent { message, receivers } ==> receivers >= 1
                && crate::use_case::gossip::is_gossip_text(message@),
            round matches GossipRound::Unsent { message } ==> crate::use_case::gossip::is_gossip_text(
                message@,
            ),
    {
        gossip_round(&self.sender)
    }

    /// The decision of a subscription that relays this peer's gossip.
    pub fn relay(&self, event: RelayEvent) -> (action: RelayAction)
        ensures
            match event {
                RelayEvent::Received(content) => action matches RelayAction::Forward(m) && m.from@
                    == self.address() && m.content == content,
                RelayEvent::Lagged | RelayEvent::Delivered => action is Listen,
                RelayEvent::Closed | RelayEvent::DeliveryFailed => action is Stop,
            },
    {
        relay_step(&self.my_address, event)
    }
}

} // verus!
