//! Peers of the network.

use crate::clock::current_timestamp_ms;
use crate::domain::entities::UserId;
use crate::domain::value_objects::Multiaddr;
use vstd::prelude::*;

verus! {

/// Connection state of a peer.
#[derive(Debug, Clone, Copy, PartialEq, Eq, Structural)]
pub enum PeerState {
    /// Known but not connected.
    Disconnected,
    /// Connection being established.
    Connecting,
    /// Connected.
    Connected,
    /// Connection being closed.
    Disconnecting,
}

/// A peer of the network.
#[derive(Debug)]
pub struct Peer {
    /// The user of the peer.
    pub user_id: UserId,
    /// Known addresses of the peer.
    pub addresses: Vec<Multiaddr>,
    /// Connection state.
    pub state: PeerState,
    /// Whether the peer relays for others.
    pub is_relay: bool,
    /// When the peer was last seen (Unix epoch milliseconds).
    pub last_seen_ms: u64,
}

/// A copy of a list of addresses.
pub fn clone_addresses(v: &Vec<Multiaddr>) -> (r: Vec<Multiaddr>)
    ensures
        r@ == v@,
{
    let mut r: Vec<Multiaddr> = Vec::new();
    let mut i: usize = 0;
    while i < v.len()
        invariant
            i <= v@.len(),
            r@ == v@.take(i as int),
        decreases v@.len() - i,
    {
        r.push(v[i].clone());
        assert(v@.take(i + 1) == v@.take(i as int).push(v@[i as int]));
        i += 1;
    }
    assert(v@.take(v@.len() as int) == v@);
    r
}

/// A peer as a value: its addresses as texts.
pub ghost struct PeerView {
    /// The user of the peer.
    pub user_id: UserId,
    /// The texts of its addresses.
    pub addresses: Seq<Seq<char>>,
    /// Connection state.
    pub state: PeerState,
    /// Whether it relays.
    pub is_relay: bool,
    /// When it was last seen.
    pub last_seen_ms: u64,
}

impl View for Peer {
    type V = PeerView;

    open spec fn view(&self) -> PeerView {
        PeerView {
            user_id: self.user_id,
            addresses: address_texts(self.addresses@),
            state: self.state,
            is_relay: self.is_relay,
            last_seen_ms: self.last_seen_ms,
        }
    }
}

impl Clone for Peer {
    fn clone(&self) -> (r: Self)
        ensures
            r@ == self@,
    {
        Peer {
            user_id: self.user_id,
            addresses: clone_addresses(&self.addresses),
            state: self.state,
            is_relay: self.is_relay,
            last_seen_ms: self.last_seen_ms,
        }
    }
}

/// The texts of a list of addresses.
pub open spec fn address_texts(v: Seq<Multiaddr>) -> Seq<Seq<char>> {
    v.map_values(|a: Multiaddr| a@)
}

/// The address list after adding `a`: unchanged when an equal address is
/// already there, otherwise `a` appended.
pub open spec fn with_address(v: Seq<Seq<char>>, a: Seq<char>) -> Seq<Seq<char>> {
    if v.contains(a) {
        v
    } else {
        v.push(a)
    }
}

impl Peer {
    /// Creates a disconnected, non-relay peer with one address; an empty
    /// address is rejected.
    pub fn new(user_id: UserId, address: &str) -> (r: Result<Self, &'static str>)
        ensures
            address@.len() == 0 <==> r is Err,
            r matches Err(e) ==> e@ == "multiaddr must not be empty"@,
            r matches Ok(p) ==> {
                &&& p.user_id == user_id
                &&& address_texts(p.addresses@) == seq![address@]
                &&& p.state == PeerState::Disconnected
                &&& !p.is_relay
                &&& p.last_seen_ms == 0
            },
    {
        let a = Multiaddr::new(address)?;
        let mut addresses: Vec<Multiaddr> = Vec::new();
        addresses.push(a);
        let p = Peer {
            user_id,
            addresses,
            state: PeerState::Disconnected,
            is_relay: false,
            last_seen_ms: 0,
        };
        assert(address_texts(p.addresses@) =~= seq![address@]);
        Ok(p)
    }

    /// Adds an address unless an equal one is known; an empty address is rejected.
    pub fn add_address(&mut self, addr: &str) -> (r: Result<(), &'static str>)
        ensures
            addr@.len() == 0 <==> r is Err,
            r matches Err(e) ==> e@ == "multiaddr must not be empty"@ && final(self)@ == old(self)@,
            r is Ok ==> address_texts(final(self).addresses@) == with_address(
                address_texts(old(self).addresses@),
                addr@,
            ),
            r is Ok ==> address_texts(final(self).addresses@).contains(addr@),
            r is Ok && !address_texts(old(self).addresses@).contains(addr@)
                ==> final(self).addresses@.len() == old(self).addresses@.len() + 1,
            final(self).user_id == old(self).user_id,
            final(self).state == old(self).state,
            final(self).is_relay == old(self).is_relay,
            final(self).last_seen_ms == old(self).last_seen_ms,
    {
        let multiaddr = Multiaddr::new(addr)?;
        let ghost texts = address_texts(self.addresses@);
        let mut i: usize = 0;
        while i < self.addresses.len()
            invariant
                i <= self.addresses@.len(),
                texts == address_texts(self.addresses@),
                multiaddr@ == addr@,
                addr@.len() > 0,
                forall|j: int| 0 <= j < i ==> texts[j] != addr@,
            decreases self.addresses@.len() - i,
        {
            if self.addresses[i] == multiaddr {
                assert(texts[i as int] == addr@);
                proof {
                    law_add_address_includes_it(texts, addr@);
                }
                return Ok(());
            }
            i += 1;
        }
        self.addresses.push(multiaddr);
        assert(address_texts(self.addresses@) =~= texts.push(addr@));
        proof {
            law_add_address_includes_it(texts, addr@);
        }
        Ok(())
    }

    /// Sets the connection state; connecting records `now_ms` as the time the
    /// peer was last seen.
    pub fn set_state_at(&mut self, state: PeerState, now_ms: u64)
        ensures
            final(self).state == state,
            final(self).user_id == old(self).user_id,
            final(self).addresses == old(self).addresses,
            final(self).is_relay == old(self).is_relay,
            final(self).last_seen_ms == if state == PeerState::Connected {
                now_ms
            } else {
                old(self).last_seen_ms
            },
    {
        self.state = state;
        if state == PeerState::Connected {
            self.last_seen_ms = now_ms;
        }
    }

    /// Sets the connection state; connecting records the current time as the
    /// time the peer was last seen (see [`Peer::set_state_at`]).
    pub fn set_state(&mut self, state: PeerState)
        ensures
            final(self).state == state,
            final(self).user_id == old(self).user_id,
            final(self).addresses == old(self).addresses,
            final(self).is_relay == old(self).is_relay,
            state != PeerState::Connected ==> final(self).last_seen_ms == old(self).last_seen_ms,
    {
        let now_ms = if state == PeerState::Connected {
            current_timestamp_ms()
        } else {
            0
        };
        self.set_state_at(state, now_ms);
    }
}

/// Adding an address keeps an address list free of repetitions.
pub proof fn law_add_address_keeps_addresses_distinct(v: Seq<Seq<char>>, a: Seq<char>)
    requires
        v.no_duplicates(),
    ensures
        with_address(v, a).no_duplicates(),
{
}

/// Adding an address makes it known, keeps every address known before, and
/// grows the list by exactly one entry when the address was not known.
pub proof fn law_add_address_includes_it(v: Seq<Seq<char>>, a: Seq<char>)
    ensures
        with_address(v, a).contains(a),
        forall|x: Seq<char>| v.contains(x) ==> #[trigger] with_address(v, a).contains(x),
        !v.contains(a) ==> with_address(v, a).len() == v.len() + 1,
        v.contains(a) ==> with_address(v, a) == v,
{
    if !v.contains(a) {
        assert(v.push(a)[v.len() as int] == a);
        assert forall|x: Seq<char>| v.contains(x) implies #[trigger] v.push(a).contains(x) by {
            let i = choose|i: int| 0 <= i < v.len() && v[i] == x;
            assert(v.push(a)[i] == x);
        }
    }
}

/// Adding the same address twice is adding it once.
pub proof fn law_add_address_idempotent(v: Seq<Seq<char>>, a: Seq<char>)
    ensures
        with_address(with_address(v, a), a) == with_address(v, a),
{
    if !v.contains(a) {
        assert(v.push(a)[v.len() as int] == a);
    }
}

} // verus!
