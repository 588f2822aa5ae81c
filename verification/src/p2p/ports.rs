//! Ports of the P2P subsystem.

use crate::domain::entities::UserId;
use crate::domain::errors::DomainError;
use crate::domain::value_objects::Multiaddr;
use crate::p2p::peer::{Peer, PeerState};
use vstd::prelude::*;

verus! {

/// Discovery of and connection to peers.
pub trait PeerDiscoveryPort {
    /// Starts listening on an address.
    fn start_listening(&mut self, addr: &str) -> Result<(), DomainError>;

    /// Stops listening and closes all connections.
    fn stop_listening(&mut self) -> Result<(), DomainError>;

    /// All known peers.
    fn list_peers(&self) -> Result<Vec<Peer>, DomainError>;

    /// Connects to the peer of a user.
    fn connect_to_peer(&mut self, user_id: &UserId) -> Result<PeerState, DomainError>;

    /// Disconnects from the peer of a user.
    fn disconnect_from_peer(&mut self, user_id: &UserId) -> Result<(), DomainError>;
}

/// Operations on the distributed hash table.
pub trait DhtPort {
    /// Bootstraps the table from bootstrap nodes.
    fn bootstrap(&mut self, bootstrap_addrs: &[Multiaddr]) -> Result<(), DomainError>;

    /// Looks up the addresses of a user's peer.
    fn lookup_peer(&self, user_id: &UserId) -> Result<Vec<Multiaddr>, DomainError>;

    /// Announces one of our addresses.
    fn provide_address(&mut self, addr: &Multiaddr) -> Result<(), DomainError>;
}

} // verus!
