use vstd::prelude::*;

verus! {

/// The characters of each string, in order.
pub open spec fn string_views(s: Seq<String>) -> Seq<Seq<char>> {
    s.map_values(|x: String| x@)
}

/// A peer, named by the address at which it serves.
pub struct PeerInfo {
    pub address: String,
}

impl View for PeerInfo {
    type V = Seq<char>;

    open spec fn view(&self) -> Seq<char> {
        self.address@
    }
}

/// A list of peers, as exchanged between peers.
pub struct PeerInfoList {
    pub infos: Vec<PeerInfo>,
}

impl View for PeerInfoList {
    type V = Seq<Seq<char>>;

    open spec fn view(&self) -> Seq<Seq<char>> {
        self.infos@.map_values(|p: PeerInfo| p@)
    }
}

/// A gossip message: who sends it and what it says.
pub struct ChatMessage {
    pub from: String,
    pub content: String,
}

impl View for ChatMessage {
    type V = (Seq<char>, Seq<char>);

    open spec fn view(&self) -> (Seq<char>, Seq<char>) {
        (self.from@, self.content@)
    }
}

impl PeerInfo {
    pub fn new(address: String) -> (p: PeerInfo)
        ensures
            p.address == address,
    {
        PeerInfo { address }
    }
}

impl ChatMessage {
    pub fn new(from: String, content: String) -> (m: ChatMessage)
        ensures
            m.from == from,
            m.content == content,
    {
        ChatMessage { from, content }
    }
}

/// The list of peers with the given addresses, in the same order.
pub fn peer_info_list(addresses: Vec<String>) -> (list: PeerInfoList)
    ensures
        list@ == string_views(addresses@),
{
    let mut infos: Vec<PeerInfo> = Vec::new();
    let n = addresses.len();
    let mut i: usize = 0;
    while i < n
        invariant
            n == addresses.len(),
            i <= n,
            infos.len() == i,
            forall|j: int| 0 <= j < i ==> #[trigger] infos@[j].address@ == addresses@[j]@,
        decreases n - i,
    {
        let a = addresses[i].clone();
        infos.push(PeerInfo { address: a });
        i = i + 1;
    }
    let list = PeerInfoList { infos };
    assert(list@ =~= string_views(addresses@));
    list
}

/// The addresses of the peers in a list, in the same order.
pub fn addresses_of(list: &PeerInfoList) -> (addresses: Vec<String>)
    ensures
        string_views(addresses@) == list@,
{
    let mut out: Vec<String> = Vec::new();
    let n = list.infos.len();
    let mut i: usize = 0;
    while i < n
        invariant
            n == list.infos.len(),
            i <= n,
            out.len() == i,
            forall|j: int| 0 <= j < i ==> #[trigger] out@[j]@ == list.infos@[j].address@,
        decreases n - i,
    {
        out.push(list.infos[i].address.clone());
        i = i + 1;
    }
    assert(string_views(out@) =~= list@);
    out
}

} // verus!
