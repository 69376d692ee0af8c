use crate::api::{string_views, PeerInfo, PeerInfoList};
use vstd::prelude::*;
use vstd::string::StringExecFns;

verus! {

/// What a peer needs to call other peers: its own address, which it
/// announces to them.
#[derive(Debug)]
pub struct Client {
    my_address: String,
}

impl View for Client {
    type V = Seq<char>;

    closed spec fn view(&self) -> Seq<char> {
        self.my_address@
    }
}

/// The URI at which a peer serving at `remote` is called.
pub open spec fn endpoint_uri(remote: Seq<char>) -> Seq<char> {
    "http://"@ + remote
}

impl Client {
    /// A client that announces `my_address`.
    pub fn new(my_address: String) -> (c: Client)
        ensures
            c@ == my_address@,
    {
        Client { my_address }
    }

    /// The URI to connect to for the peer at `remote`.
    pub fn endpoint(remote: &String) -> (uri: String)
        ensures
            uri@ == endpoint_uri(remote@),
            uri@ == "http://"@ + remote@,
    {
        String::from_str("http://").concat(remote.as_str())
    }

    /// What this peer sends when it subscribes to a peer or asks to be added
    /// to its peers: its own address.
    pub fn announcement(&self) -> (info: PeerInfo)
        ensures
            info@ == self@,
    {
        PeerInfo { address: self.my_address.clone() }
    }

    /// The addresses in the answer of a peer that added this one.
    pub fn known_peers(answer: &PeerInfoList) -> (peers: Vec<String>)
        ensures
            string_views(peers@) == answer@,
    {
        crate::api::addresses_of(answer)
    }
}

impl Clone for Client {
    fn clone(&self) -> (c: Client)
        ensures
            c@ == self@,
    {
        Client { my_address: self.my_address.clone() }
    }
}

} // verus!
