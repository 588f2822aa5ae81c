use presidium::domain::entities::UserId;
use presidium::domain::value_objects::Multiaddr;
use presidium::p2p::adapters::StubP2pAdapter;
use presidium::p2p::peer::{Peer, PeerState};
use presidium::p2p::ports::{DhtPort, PeerDiscoveryPort};

#[test]
fn mod_test_port_traits_are_object_safe() {
    fn _use_as_dyn(_: &dyn PeerDiscoveryPort) {}
    fn _use_dht_as_dyn(_: &dyn DhtPort) {}
}

#[test]
fn test_peer_creation() {
    let user = UserId::new([1u8; 32]);
    let peer = Peer::new(user, "/ip4/127.0.0.1/tcp/4001").expect("valid addr");
    assert_eq!(peer.state, PeerState::Disconnected);
    assert_eq!(peer.addresses.len(), 1);
    assert!(!peer.is_relay);
}

#[test]
fn test_peer_add_address() {
    let user = UserId::new([1u8; 32]);
    let mut peer = Peer::new(user, "/ip4/1.2.3.4/tcp/4001").expect("addr");
    peer.add_address("/ip6/::1/tcp/4001").expect("add addr");
    assert_eq!(peer.addresses.len(), 2);
}

#[test]
fn adding_a_known_or_empty_address_changes_nothing() {
    let mut peer = Peer::new(UserId::new([1u8; 32]), "/ip4/1.2.3.4/tcp/4001").unwrap();
    peer.add_address("/ip4/1.2.3.4/tcp/4001").unwrap();
    assert_eq!(peer.addresses.len(), 1);
    assert_eq!(peer.add_address(""), Err("multiaddr must not be empty"));
    assert_eq!(peer.addresses.len(), 1);
}

#[test]
fn test_peer_state_transitions() {
    let user = UserId::new([1u8; 32]);
    let mut peer = Peer::new(user, "/ip4/127.0.0.1/tcp/4001").expect("addr");
    assert_eq!(peer.state, PeerState::Disconnected);
    peer.set_state(PeerState::Connecting);
    assert_eq!(peer.state, PeerState::Connecting);
    peer.set_state(PeerState::Connected);
    assert_eq!(peer.state, PeerState::Connected);
    assert!(peer.last_seen_ms > 0);
}

#[test]
fn test_peer_rejects_empty_address() {
    let user = UserId::new([1u8; 32]);
    assert!(Peer::new(user, "").is_err());
}

#[test]
fn test_stub_p2p_lifecycle() {
    let mut adapter = StubP2pAdapter::new();
    adapter.start_listening("/ip4/0.0.0.0/tcp/0").expect("listen");
    let user = UserId::new([1u8; 32]);
    let state = adapter.connect_to_peer(&user).expect("connect");
    assert_eq!(state, PeerState::Connected);
    let peers = adapter.list_peers().expect("list");
    assert_eq!(peers.len(), 1);
    adapter.disconnect_from_peer(&user).expect("disconnect");
    adapter.stop_listening().expect("stop");
}

#[test]
fn stub_p2p_peer_states() {
    let mut adapter = StubP2pAdapter::default();
    let a = UserId::new([1u8; 32]);
    let b = UserId::new([2u8; 32]);
    adapter.connect_to_peer(&a).unwrap();
    adapter.connect_to_peer(&b).unwrap();
    adapter.connect_to_peer(&a).unwrap();
    adapter.disconnect_from_peer(&b).unwrap();
    adapter.disconnect_from_peer(&UserId::new([3u8; 32])).unwrap();
    let peers = adapter.list_peers().unwrap();
    assert_eq!(peers.len(), 2);
    let pa = peers.iter().find(|p| p.user_id == a).unwrap();
    let pb = peers.iter().find(|p| p.user_id == b).unwrap();
    assert_eq!(pa.state, PeerState::Connected);
    assert!(pa.last_seen_ms > 0);
    assert_eq!(pb.state, PeerState::Disconnected);
    assert!(pa.addresses.is_empty());
}

#[test]
fn test_stub_dht_bootstrap() {
    let mut adapter = StubP2pAdapter::new();
    let addr = Multiaddr::new("/ip4/1.2.3.4/tcp/4001").expect("addr");
    adapter.bootstrap(&[addr]).expect("bootstrap");
    assert!(adapter.lookup_peer(&UserId::new([1u8; 32])).unwrap().is_empty());
    let addr = Multiaddr::new("/ip4/5.6.7.8/tcp/1").unwrap();
    assert!(adapter.provide_address(&addr).is_ok());
}

#[test]
fn set_state_at_records_the_given_time_only_on_connect() {
    let mut peer = Peer::new(UserId::new([1u8; 32]), "/ip4/127.0.0.1/tcp/4001").unwrap();
    peer.set_state_at(PeerState::Connecting, 500);
    assert_eq!(peer.state, PeerState::Connecting);
    assert_eq!(peer.last_seen_ms, 0);
    peer.set_state_at(PeerState::Connected, 1234);
    assert_eq!(peer.state, PeerState::Connected);
    assert_eq!(peer.last_seen_ms, 1234);
    peer.set_state_at(PeerState::Disconnected, 9999);
    assert_eq!(peer.last_seen_ms, 1234);
    assert_eq!(peer.addresses.len(), 1);
}

#[test]
fn connect_to_peer_at_records_the_given_time() {
    let mut adapter = StubP2pAdapter::new();
    let user = UserId::new([4u8; 32]);
    assert_eq!(adapter.connect_to_peer_at(&user, 42).unwrap(), PeerState::Connected);
    let peers = adapter.list_peers().unwrap();
    assert_eq!(peers.len(), 1);
    assert_eq!(peers[0].last_seen_ms, 42);
    assert!(peers[0].addresses.is_empty());
    adapter.connect_to_peer_at(&user, 77).unwrap();
    let peers = adapter.list_peers().unwrap();
    assert_eq!(peers.len(), 1);
    assert_eq!(peers[0].last_seen_ms, 77);
}
