pub mod peer_table;
pub mod gossip;
pub mod relay;
pub mod peer_provider;
