//! An in-memory adapter for the P2P ports.

use crate::clock::current_timestamp_ms;
use crate::domain::entities::UserId;
use crate::domain::errors::DomainError;
use crate::domain::value_objects::Multiaddr;
use crate::p2p::peer::{Peer, PeerState, PeerView};
use crate::p2p::ports::{DhtPort, PeerDiscoveryPort};
use crate::registry::Registry;
use vstd::prelude::*;

verus! {

broadcast use vstd::seq_lib::group_seq_properties;

/// A peer registry and a listening switch, all in memory.
pub struct StubP2pAdapter {
    peers: Registry<UserId, Peer>,
    listening: bool,
}

/// Whether `v` is the view of one of the known peers.
pub open spec fn is_known_peer(peers: Map<Seq<u8>, PeerView>, v: PeerView) -> bool {
    exists|k: Seq<u8>| #[trigger] peers.contains_key(k) && peers[k] == v
}

/// The peer that connecting to `user` at time `now_ms` leaves among `peers`:
/// the known peer, or a new one without addresses, now connected and last
/// seen at `now_ms`.
pub open spec fn connected_peer(peers: Map<Seq<u8>, PeerView>, user: UserId, now_ms: u64) -> PeerView {
    let base = if peers.contains_key(user@) {
        peers[user@]
    } else {
        PeerView {
            user_id: user,
            addresses: Seq::empty(),
            state: PeerState::Disconnected,
            is_relay: false,
            last_seen_ms: 0,
        }
    };
    PeerView { state: PeerState::Connected, last_seen_ms: now_ms, ..base }
}

impl StubP2pAdapter {
    #[verifier::type_invariant]
    spec fn inv(self) -> bool {
        &&& self.peers.wf()
        &&& forall|k: Seq<u8>| #[trigger]
            self.peers.as_map().contains_key(k) ==> self.peers.as_map()[k].user_id@ == k
    }

    /// The known peers, by the bytes of their user identifier.
    pub closed spec fn peers(self) -> Map<Seq<u8>, PeerView> {
        self.peers.as_map().map_values(|p: Peer| p@)
    }

    /// Whether the adapter is listening.
    pub closed spec fn is_listening(self) -> bool {
        self.listening
    }

    /// An adapter that knows no peer and does not listen.
    pub fn new() -> (r: Self)
        ensures
            r.peers() == Map::<Seq<u8>, PeerView>::empty(),
            !r.is_listening(),
    {
        let r = StubP2pAdapter { peers: Registry::new(), listening: false };
        assert(r.peers() =~= Map::<Seq<u8>, PeerView>::empty());
        r
    }

    /// Sets the peer of a user, keeping the key invariant.
    fn put_peer(&mut self, p: Peer)
        ensures
            final(self).peers() == old(self).peers().insert(p.user_id@, p@),
            final(self).is_listening() == old(self).is_listening(),
    {
        proof {
            use_type_invariant(&*self);
        }
        let ghost pv = p@;
        let mut reg = Registry::new();
        std::mem::swap(&mut reg, &mut self.peers);
        let ghost before = reg.as_map();
        reg.insert(p.user_id, p);
        self.peers = reg;
        assert(self.peers() =~= old(self).peers().insert(pv.user_id@, pv));
    }

    /// Connects to the peer of a user at time `now_ms`: the peer, known or
    /// new, becomes connected and last seen at `now_ms`.
    pub fn connect_to_peer_at(&mut self, user_id: &UserId, now_ms: u64) -> (r: Result<
        PeerState,
        DomainError,
    >)
        ensures
            r == Ok::<PeerState, DomainError>(PeerState::Connected),
            final(self).is_listening() == old(self).is_listening(),
            final(self).peers() == old(self).peers().insert(
                user_id@,
                connected_peer(old(self).peers(), *user_id, now_ms),
            ),
    {
        proof {
            use_type_invariant(&*self);
        }
        let mut peer = match self.peers.get(user_id) {
            Some(p) => p.clone(),
            None => {
                let p = Peer {
                    user_id: *user_id,
                    addresses: Vec::new(),
                    state: PeerState::Disconnected,
                    is_relay: false,
                    last_seen_ms: 0,
                };
                assert(p@.addresses =~= Seq::<Seq<char>>::empty());
                p
            },
        };
        peer.set_state_at(PeerState::Connected, now_ms);
        self.put_peer(peer);
        Ok(PeerState::Connected)
    }
}

impl Default for StubP2pAdapter {
    fn default() -> (r: Self)
        ensures
            r.peers() == Map::<Seq<u8>, PeerView>::empty(),
            !r.is_listening(),
    {
        Self::new()
    }
}

impl PeerDiscoveryPort for StubP2pAdapter {
    fn start_listening(&mut self, addr: &str) -> (r: Result<(), DomainError>)
        ensures
            r is Ok,
            final(self).is_listening(),
            final(self).peers() == old(self).peers(),
    {
        proof {
            use_type_invariant(&*self);
        }
        self.listening = true;
        Ok(())
    }

    fn stop_listening(&mut self) -> (r: Result<(), DomainError>)
        ensures
            r is Ok,
            !final(self).is_listening(),
            final(self).peers() == old(self).peers(),
    {
        proof {
            use_type_invariant(&*self);
        }
        self.listening = false;
        Ok(())
    }

    fn list_peers(&self) -> (r: Result<Vec<Peer>, DomainError>)
        ensures
            r matches Ok(v) && {
                &&& v@.len() == self.peers().dom().len()
                &&& forall|i: int| 0 <= i < v@.len() ==> is_known_peer(self.peers(), #[trigger] v@[i]@)
                &&& forall|k: Seq<u8>| #[trigger] self.peers().contains_key(k) ==> exists|i: int|
                    0 <= i < v@.len() && v@[i]@ == self.peers()[k]
            },
    {
        proof {
            use_type_invariant(self);
        }
        let reg = &self.peers;
        let n = reg.len();
        let mut r: Vec<Peer> = Vec::new();
        let mut i: usize = 0;
        while i < n
            invariant
                reg == &self.peers,
                reg.wf(),
                n == reg.entries().len(),
                i <= n,
                r@.len() == i,
                forall|j: int| 0 <= j < i ==> (#[trigger] r@[j])@ == reg.entries()[j].1@,
            decreases n - i,
        {
            let e = reg.entry(i);
            r.push(e.1.clone());
            i += 1;
        }
        proof {
            assert(self.peers().dom() =~= reg.as_map().dom());
            reg.lemma_unique();
            assert forall|i: int| 0 <= i < r@.len() implies is_known_peer(self.peers(), #[trigger] r@[i]@) by {
                reg.lemma_entry_in_map(i);
                assert(self.peers().contains_key(reg.entries()[i].0@));
            }
            assert forall|k: Seq<u8>| #[trigger] self.peers().contains_key(k) implies exists|i: int|
                0 <= i < r@.len() && r@[i]@ == self.peers()[k] by {
                let j = reg.index_of(k);
                assert(r@[j]@ == self.peers()[k]);
            }
            let keys = reg.entries().map_values(|e: (UserId, Peer)| e.0@);
            assert forall|a: int, b: int| 0 <= a < keys.len() && 0 <= b < keys.len() && a != b implies keys[a] != keys[b] by {}
            assert(keys.no_duplicates());
            keys.unique_seq_to_set();
            assert(keys.to_set() =~= reg.as_map().dom()) by {
                assert forall|k: Seq<u8>| keys.to_set().contains(k) <==> reg.as_map().dom().contains(k) by {
                    if keys.to_set().contains(k) {
                        let j = choose|j: int| 0 <= j < keys.len() && keys[j] == k;
                        reg.lemma_entry_in_map(j);
                    }
                    if reg.as_map().dom().contains(k) {
                        let j = reg.index_of(k);
                        assert(keys[j] == k);
                    }
                }
            }
        }
        Ok(r)
    }

    fn connect_to_peer(&mut self, user_id: &UserId) -> (r: Result<PeerState, DomainError>)
        ensures
            r == Ok::<PeerState, DomainError>(PeerState::Connected),
            final(self).is_listening() == old(self).is_listening(),
            final(self).peers().dom() == old(self).peers().dom().insert(user_id@),
            forall|k: Seq<u8>| #[trigger] old(self).peers().contains_key(k) && k != user_id@ ==> final(self).peers()[k] == old(self).peers()[k],
            ({
                let p = final(self).peers()[user_id@];
                &&& p.user_id@ == user_id@
                &&& p.state == PeerState::Connected
                &&& old(self).peers().contains_key(user_id@) ==> {
                    &&& p.addresses == old(self).peers()[user_id@].addresses
                    &&& p.is_relay == old(self).peers()[user_id@].is_relay
                }
                &&& !old(self).peers().contains_key(user_id@) ==> {
                    &&& p.addresses == Seq::<Seq<char>>::empty()
                    &&& !p.is_relay
                }
            }),
    {
        proof {
            use_type_invariant(&*self);
        }
        let now_ms = current_timestamp_ms();
        let r = self.connect_to_peer_at(user_id, now_ms);
        assert(self.peers().dom() =~= old(self).peers().dom().insert(user_id@));
        r
    }

    fn disconnect_from_peer(&mut self, user_id: &UserId) -> (r: Result<(), DomainError>)
        ensures
            r is Ok,
            final(self).is_listening() == old(self).is_listening(),
            !old(self).peers().contains_key(user_id@) ==> final(self).peers() == old(self).peers(),
            old(self).peers().contains_key(user_id@) ==> final(self).peers() == old(self).peers().insert(
                user_id@,
                PeerView { state: PeerState::Disconnected, ..old(self).peers()[user_id@] },
            ),
    {
        proof {
            use_type_invariant(&*self);
        }
        let found = match self.peers.get(user_id) {
            Some(p) => Some(p.clone()),
            None => None,
        };
        if let Some(mut peer) = found {
            peer.set_state(PeerState::Disconnected);
            self.put_peer(peer);
        }
        Ok(())
    }
}

impl DhtPort for StubP2pAdapter {
    fn bootstrap(&mut self, bootstrap_addrs: &[Multiaddr]) -> (r: Result<(), DomainError>)
        ensures
            r is Ok,
            final(self).peers() == old(self).peers(),
            final(self).is_listening() == old(self).is_listening(),
    {
        Ok(())
    }

    fn lookup_peer(&self, user_id: &UserId) -> (r: Result<Vec<Multiaddr>, DomainError>)
        ensures
            r matches Ok(v) && v@.len() == 0,
    {
        Ok(Vec::new())
    }

    fn provide_address(&mut self, addr: &Multiaddr) -> (r: Result<(), DomainError>)
        ensures
            r is Ok,
            final(self).peers() == old(self).peers(),
            final(self).is_listening() == old(self).is_listening(),
    {
        Ok(())
    }
}

} // verus!
