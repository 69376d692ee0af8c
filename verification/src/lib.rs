//! A peer of a small gossip network: the rules by which it reads its
//! configuration, keeps track of the peers it knows, answers the peers that
//! greet it, chooses whom to dial, produces gossip and relays it.

pub mod api;
pub mod config;
pub mod delivery;
pub mod errors;
pub mod laws;
pub mod peer;
pub mod registry;
pub mod use_case;

pub use config::Config;
pub use errors::PeerError;
