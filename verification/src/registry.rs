use crate::api::{string_views, PeerInfo, PeerInfoList};
use vstd::prelude::*;

verus! {

/// The set of peer addresses that a peer has been greeted by.
///
/// Each address is held once; the order in which they are held carries no
/// meaning.
#[derive(Debug)]
pub struct PeerRegistry {
    peers: Vec<String>,
}

impl PeerRegistry {
    #[verifier::type_invariant]
    spec fn each_once(self) -> bool {
        string_views(self.peers@).no_duplicates()
    }
}

impl View for PeerRegistry {
    type V = Set<Seq<char>>;

    closed spec fn view(&self) -> Set<Seq<char>> {
        string_views(self.peers@).to_set()
    }
}

impl PeerRegistry {
    /// A registry that knows no peer.
    pub fn new() -> (r: PeerRegistry)
        ensures
            r@ == Set::<Seq<char>>::empty(),
    {
        let r = PeerRegistry { peers: Vec::new() };
        assert(r@ =~= Set::<Seq<char>>::empty());
        r
    }

    /// Whether the registry holds the address.
    pub fn contains(&self, address: &String) -> (b: bool)
        ensures
            b == self@.contains(address@),
    {
        let n = self.peers.len();
        let mut i: usize = 0;
        while i < n
            invariant
                n == self.peers.len(),
                i <= n,
                forall|j: int| 0 <= j < i ==> self.peers@[j]@ != address@,
            decreases n - i,
        {
            if self.peers[i] == *address {
                assert(string_views(self.peers@)[i as int] == address@);
                return true;
            }
            i = i + 1;
        }
        assert(!string_views(self.peers@).contains(address@));
        false
    }

    /// Adds the address; returns whether it was new.
    pub fn insert(&mut self, address: String) -> (added: bool)
        ensures
            final(self)@ == old(self)@.insert(address@),
            added == !old(self)@.contains(address@),
    {
        proof {
            use_type_invariant(&*self);
        }
        if self.contains(&address) {
            assert(self@.insert(address@) =~= self@);
            false
        } else {
            let ghost before = string_views(self.peers@);
            let ghost a = address@;
            assert(!before.contains(a));
            let mut peers: Vec<String> = Vec::new();
            std::mem::swap(&mut peers, &mut self.peers);
            assert(string_views(peers@) == before);
            peers.push(address);
            assert(string_views(peers@) =~= before.push(a));
            assert(before.push(a).no_duplicates()) by {
                assert forall|i: int, j: int|
                    0 <= i < before.len() + 1 && 0 <= j < before.len() + 1 && i != j implies before.push(
                    a,
                )[i] != before.push(a)[j] by {
                    if i == before.len() {
                        assert(before.contains(before[j]));
                    } else if j == before.len() {
                        assert(before.contains(before[i]));
                    }
                }
            }
            self.peers = peers;
            assert(string_views(self.peers@) =~= before.push(a));
            assert forall|x: Seq<char>| before.push(a).contains(x) <==> (before.contains(x) || x == a) by {
                if before.push(a).contains(x) && x != a {
                    let k = choose|k: int| 0 <= k < before.len() + 1 && before.push(a)[k] == x;
                    assert(before[k] == x);
                }
                if before.contains(x) {
                    let k = choose|k: int| 0 <= k < before.len() && before[k] == x;
                    assert(before.push(a)[k] == x);
                }
                if x == a {
                    assert(before.push(a)[before.len() as int] == x);
                }
            }
            assert(self@ =~= before.to_set().insert(a));
            true
        }
    }

    /// Every held address but the given one, each once, in no particular order.
    pub fn others(&self, address: &String) -> (rest: Vec<String>)
        ensures
            string_views(rest@).no_duplicates(),
            string_views(rest@).to_set() == self@.remove(address@),
    {
        proof {
            use_type_invariant(self);
        }
        let mut rest: Vec<String> = Vec::new();
        let n = self.peers.len();
        let mut i: usize = 0;
        while i < n
            invariant
                n == self.peers.len(),
                i <= n,
                string_views(self.peers@).no_duplicates(),
                string_views(rest@).no_duplicates(),
                forall|a: Seq<char>|
                    string_views(rest@).contains(a) <==> (exists|k: int|
                        0 <= k < i && #[trigger] string_views(self.peers@)[k] == a) && a != address@,
            decreases n - i,
        {
            let ghost views = string_views(self.peers@);
            if self.peers[i] != *address {
                let ghost old_rest = string_views(rest@);
                let p = self.peers[i].clone();
                rest.push(p);
                assert(string_views(rest@) =~= old_rest.push(views[i as int]));
                assert forall|j: int| 0 <= j < old_rest.len() implies old_rest[j] != views[i as int] by {
                    assert(old_rest.contains(old_rest[j]));
                    let k = choose|k: int| 0 <= k < i && views[k] == old_rest[j];
                    assert(views[k] == old_rest[j]);
                }
                assert forall|x: Seq<char>|
                    string_views(rest@).contains(x) <==> (exists|k: int|
                        0 <= k < i + 1 && #[trigger] views[k] == x) && x != address@ by {
                    if string_views(rest@).contains(x) && x != views[i as int] {
                        let m = choose|m: int| 0 <= m < string_views(rest@).len() && string_views(rest@)[m] == x;
                        assert(old_rest[m] == x);
                        assert(old_rest.contains(x));
                    }
                    if (exists|k: int| 0 <= k < i + 1 && #[trigger] views[k] == x) && x != address@ {
                        let k = choose|k: int| 0 <= k < i + 1 && #[trigger] views[k] == x;
                        if k < i {
                            assert(old_rest.contains(x));
                            let m = choose|m: int| 0 <= m < old_rest.len() && old_rest[m] == x;
                            assert(string_views(rest@)[m] == x);
                        } else {
                            assert(string_views(rest@)[old_rest.len() as int] == x);
                        }
                    }
                }
            } else {
                assert forall|x: Seq<char>|
                    string_views(rest@).contains(x) <==> (exists|k: int|
                        0 <= k < i + 1 && #[trigger] views[k] == x) && x != address@ by {
                    if (exists|k: int| 0 <= k < i + 1 && #[trigger] views[k] == x) && x != address@ {
                        let k = choose|k: int| 0 <= k < i + 1 && #[trigger] views[k] == x;
                        assert(k < i);
                    }
                }
            }
            i = i + 1;
        }
        assert forall|x: Seq<char>| self@.contains(x) implies (exists|k: int|
            0 <= k < n && #[trigger] string_views(self.peers@)[k] == x) by {
            let k = choose|k: int| 0 <= k < n && string_views(self.peers@)[k] == x;
        }
        assert(string_views(rest@).to_set() =~= self@.remove(address@));
        rest
    }

    /// Records a peer that greets this one and answers with every other peer
    /// known, the greeting peer itself left out.
    pub fn greet(&mut self, remote: String) -> (answer: PeerInfoList)
        ensures
            final(self)@ == old(self)@.insert(remote@),
            answer@.no_duplicates(),
            answer@.to_set() == old(self)@.remove(remote@),
    {
        let key = remote.clone();
        self.insert(remote);
        let rest = self.others(&key);
        assert(old(self)@.insert(key@).remove(key@) =~= old(self)@.remove(key@));
        crate::api::peer_info_list(rest)
    }
}

} // verus!
