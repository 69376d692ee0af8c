use crate::api::PeerInfo;
use crate::config::opt_view;
use crate::delivery::client::{endpoint_uri, Client};
use crate::peer::server::Server;
use vstd::prelude::*;

verus! {

/// A peer: its server, the address it announces, and the peer it greets
/// first, if it was told of one.
#[derive(Debug)]
pub struct Peer {
    server: Server,
    known_peer: Option<String>,
    my_server_addr: String,
}

impl Peer {
    /// The peer it greets first, if any.
    pub closed spec fn first_contact(&self) -> Option<Seq<char>> {
        opt_view(self.known_peer)
    }

    /// The address this peer announces.
    pub closed spec fn announced(&self) -> Seq<char> {
        self.my_server_addr@
    }

    /// Its server.
    pub closed spec fn server(&self) -> Server {
        self.server
    }

    /// The address at which its server serves.
    pub closed spec fn serves_at(&self) -> Seq<char> {
        self.server.serving_address()
    }

    pub fn new(server: Server, my_server_addr: String, known_peer: Option<String>) -> (p: Peer)
        ensures
            p.first_contact() == opt_view(known_peer),
            p.announced() == my_server_addr@,
            p.serves_at() == server.serving_address(),
            p.server() == server,
    {
        Peer { server, known_peer, my_server_addr }
    }

    /// The greeting to send before serving: to the URI of the first peer,
    /// announcing this peer's address; none when no first peer was given.
    pub fn first_greeting(&self) -> (call: Option<(String, PeerInfo)>)
        ensures
            call is None <==> self.first_contact() is None,
            call matches Some((uri, info)) ==> uri@ == endpoint_uri(self.first_contact()->0)
                && info@ == self.announced(),
    {
        match &self.known_peer {
            Some(address) => Some(
                (Client::endpoint(address), PeerInfo { address: self.my_server_addr.clone() }),
            ),
            None => None,
        }
    }

    /// The address at which the server serves.
    pub fn server_address(&self) -> (a: &String)
        ensures
            a@ == self.serves_at(),
    {
        self.server.local_address()
    }

    /// The server, to be run.
    pub fn into_server(self) -> (s: Server)
        ensures
            s == self.server(),
            s.serving_address() == self.serves_at(),
    {
        self.server
    }
}

} // verus!
