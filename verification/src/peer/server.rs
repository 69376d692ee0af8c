use crate::api::PeerInfoList;
use crate::registry::PeerRegistry;
use crate::use_case::relay::{relay_step, RelayAction, RelayEvent};
use std::sync::Arc;
use tokio::sync::broadcast::Sender;
use vstd::prelude::*;

verus! {

/// The state of a peer's server: the peers that greeted it, the address at
/// which it serves, and the channel whose gossip it relays.
#[derive(Debug)]
pub struct Server {
    peers: PeerRegistry,
    pub address: String,
    sender: Arc<Sender<String>>,
}

impl Server {
    /// The address at which this peer serves.
    pub closed spec fn serving_address(&self) -> Seq<char> {
        self.address@
    }

    /// The addresses of the peers that greeted this one.
    pub closed spec fn known(&self) -> Set<Seq<char>> {
        self.peers@
    }

    /// The channel whose gossip the server relays.
    pub closed spec fn channel(&self) -> Arc<Sender<String>> {
        self.sender
    }

    /// A server at `address` that starts from the given peers.
    pub fn new(peers: PeerRegistry, address: String, sender: Arc<Sender<String>>) -> (s: Server)
        ensures
            s.known() == peers@,
            s.serving_address() == address@,
            s.channel() == sender,
    {
        Server { peers, address, sender }
    }

    /// Answers the peer at `remote_address`: it is remembered, and the answer
    /// names every other peer that greeted this one, each once.
    pub fn greeting(&mut self, remote_address: String) -> (answer: PeerInfoList)
        ensures
            final(self).known() == old(self).known().insert(remote_address@),
            final(self).serving_address() == old(self).serving_address(),
            final(self).channel() == old(self).channel(),
            answer@.no_duplicates(),
            answer@.to_set() == old(self).known().remove(remote_address@),
    {
        self.peers.greet(remote_address)
    }

    /// The address at which this server serves.
    pub fn local_address(&self) -> (a: &String)
        ensures
            a@ == self.serving_address(),
    {
        &self.address
    }

    /// The channel whose gossip is relayed to the peers that chat.
    pub fn gossip_sender(&self) -> (tx: Arc<Sender<String>>)
        ensures
            tx == self.channel(),
    {
        Arc::clone(&self.sender)
    }

    /// The decision of a chat that relays gossip as coming from this server.
    pub fn relay(&self, event: RelayEvent) -> (action: RelayAction)
        ensures
            match event {
                RelayEvent::Received(content) => action matches RelayAction::Forward(m) && m.from@
                    == self.serving_address() && m.content == content,
                RelayEvent::Lagged | RelayEvent::Delivered => action is Listen,
                RelayEvent::Closed | RelayEvent::DeliveryFailed => action is Stop,
            },
    {
        relay_step(&self.address, event)
    }
}

} // verus!
