//! Properties that hold across the operations of a peer.

use crate::delivery::client::endpoint_uri;
use crate::use_case::peer_provider::{initial_entries, is_dial_candidate, learn_all, lemma_learn_all};
use vstd::prelude::*;

verus! {

/// A peer that greeted is named in the answer to every later greeting by
/// another peer, and never in the answer to its own greeting.
pub proof fn law_greeter_is_named_to_later_greeters(
    known: Set<Seq<char>>,
    first: Seq<char>,
    later: Seq<char>,
)
    requires
        first != later,
    ensures
        known.insert(first).remove(later).contains(first),
        !known.remove(first).contains(first),
{
}

/// Greeting twice from the same address changes nothing the second time, and
/// gets the same answer.
pub proof fn law_greeting_is_idempotent(known: Set<Seq<char>>, remote: Seq<char>)
    ensures
        known.insert(remote).insert(remote) == known.insert(remote),
        known.insert(remote).remove(remote) == known.remove(remote),
{
    assert(known.insert(remote).insert(remote) =~= known.insert(remote));
    assert(known.insert(remote).remove(remote) =~= known.remove(remote));
}

/// No operation on the peer table forgets a peer: marking a peer as seen and
/// learning of peers keep every address that was there.
pub proof fn law_table_never_forgets(
    table: Map<Seq<char>, bool>,
    peer: Seq<char>,
    heard: Seq<Seq<char>>,
)
    ensures
        table.dom().subset_of(table.insert(peer, false).dom()),
        table.dom().subset_of(learn_all(table, heard).dom()),
        table.insert(peer, false).dom().subset_of(learn_all(table.insert(peer, false), heard).dom()),
{
    lemma_learn_all(table, heard);
    lemma_learn_all(table.insert(peer, false), heard);
}

/// After the first peer answered with the peers it knows, that peer and each
/// one it named are in the table; the first peer as not subscribed, and
/// every peer already there with the flag it had.
pub proof fn law_known_peer_reply(
    table: Map<Seq<char>, bool>,
    known: Seq<char>,
    named: Seq<Seq<char>>,
)
    ensures
        learn_all(table.insert(known, false), named).contains_key(known),
        learn_all(table.insert(known, false), named)[known] == false,
        forall|k: Seq<char>|
            named.contains(k) ==> #[trigger] learn_all(table.insert(known, false), named).contains_key(
                k,
            ),
        forall|k: Seq<char>|
            table.contains_key(k) && k != known ==> #[trigger] learn_all(
                table.insert(known, false),
                named,
            )[k] == table[k],
{
    lemma_learn_all(table.insert(known, false), named);
}

/// A peer that was just reached or added is dialled on the next round of
/// dialling unless it is this peer or the first peer; a peer that is marked
/// as subscribed is not.
pub proof fn law_reached_peer_is_dialled(
    table: Map<Seq<char>, bool>,
    me: Seq<char>,
    known: Seq<char>,
    peer: Seq<char>,
)
    ensures
        is_dial_candidate(table.insert(peer, false), me, known, peer) <==> (peer != me && peer
            != known),
        !is_dial_candidate(table.insert(peer, true), me, known, peer),
{
}

/// Every peer, whatever the form of its address, is called over plain HTTP
/// at its address: the URI is `http://` followed by the address, unchanged.
pub proof fn law_endpoint_is_plain_http(remote: Seq<char>)
    ensures
        endpoint_uri(remote).len() == remote.len() + 7,
        endpoint_uri(remote).take(7) == seq!['h', 't', 't', 'p', ':', '/', '/'],
        endpoint_uri(remote).skip(7) == remote,
{
    reveal_strlit("http://");
    assert(endpoint_uri(remote).take(7) =~= seq!['h', 't', 't', 'p', ':', '/', '/']);
    assert(endpoint_uri(remote).skip(7) =~= remote);
}

/// A peer starts knowing itself and the peer it was told of, both as not
/// subscribed, and nothing else.
pub proof fn law_initial_table(me: Seq<char>, known: Option<Seq<char>>)
    ensures
        initial_entries(me, known).contains_key(me),
        initial_entries(me, known)[me] == false,
        known matches Some(k) ==> initial_entries(me, known).contains_key(k) && initial_entries(
            me,
            known,
        )[k] == false,
        forall|k: Seq<char>|
            #[trigger] initial_entries(me, known).contains_key(k) ==> k == me || known == Some(k),
{
}

} // verus!
