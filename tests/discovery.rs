use zsak::discovery::{
    list_peers, role_bits, role_mask, DiscoverySession, PeerRecord, Role, ALL_ROLES,
    LIST_SCOUTING_INTERVAL,
};

fn hello(id: u128, role: Role, locator: &str) -> PeerRecord {
    PeerRecord { id, role, locators: vec![locator.to_string()] }
}

#[test]
fn duplicate_identities_keep_first_announcement() {
    let mut s = DiscoverySession::open(99, 0, 1);
    assert!(s.observe(10, hello(0xA, Role::Peer, "tcp/10.0.0.1:7447")));
    assert!(s.observe(20, hello(0xA, Role::Router, "tcp/10.0.0.9:7447")));
    assert!(s.observe(30, hello(0xB, Role::Client, "udp/10.0.0.2:7447")));
    let peers = s.finish();
    assert_eq!(peers.len(), 2);
    assert_eq!(peers[0].id, 0xA);
    assert_eq!(peers[0].role, Role::Peer);
    assert_eq!(peers[0].locators, vec!["tcp/10.0.0.1:7447".to_string()]);
    assert_eq!(peers[1].id, 0xB);
}

#[test]
fn own_identity_is_left_out() {
    let mut s = DiscoverySession::open(7, 0, 2);
    assert!(s.observe(1, hello(7, Role::Peer, "tcp/127.0.0.1:7447")));
    assert!(s.observe(2, hello(8, Role::Router, "tcp/10.0.0.3:7447")));
    assert!(s.observe(3, hello(7, Role::Peer, "tcp/127.0.0.1:7448")));
    let peers = s.finish();
    assert_eq!(peers.len(), 1);
    assert!(peers.iter().all(|p| p.id != 7));
}

#[test]
fn empty_window_is_an_empty_table() {
    let s = DiscoverySession::open(1, 500, 0);
    assert!(!s.is_open(500));
    assert!(s.finish().is_empty());
}

#[test]
fn announcements_after_deadline_are_ignored() {
    let mut s = DiscoverySession::open(1, 1000, 2);
    assert!(s.is_open(2999));
    assert!(!s.is_open(3000));
    assert!(s.observe(2999, hello(2, Role::Peer, "tcp/a:1")));
    assert!(!s.observe(3000, hello(3, Role::Peer, "tcp/b:1")));
    let peers = s.peers();
    assert_eq!(peers.len(), 1);
    assert_eq!(peers[0].id, 2);
}

#[test]
fn window_end_saturates() {
    let s = DiscoverySession::open(1, u64::MAX - 5, u64::MAX);
    assert!(s.is_open(u64::MAX - 1));
    assert!(!s.is_open(u64::MAX));
}

#[test]
fn listing_filters_by_role_bits() {
    let peers = vec![
        hello(1, Role::Router, "r"),
        hello(2, Role::Peer, "p"),
        hello(3, Role::Client, "c"),
        hello(4, Role::Router, "r2"),
    ];
    assert_eq!(list_peers(&peers, role_bits(Role::Router)), vec![(1, Role::Router), (4, Role::Router)]);
    assert_eq!(list_peers(&peers, role_bits(Role::Client)), vec![(3, Role::Client)]);
    assert_eq!(list_peers(&peers, ALL_ROLES).len(), 4);
    assert_eq!(list_peers(&peers, 0), vec![]);
    assert_eq!(list_peers(&peers, 0b011), vec![(1, Role::Router), (2, Role::Peer), (4, Role::Router)]);
}

#[test]
fn role_mask_from_flags() {
    assert_eq!(role_bits(Role::Router), 1);
    assert_eq!(role_bits(Role::Peer), 2);
    assert_eq!(role_bits(Role::Client), 4);
    assert_eq!(role_mask(true, true, false), 1);
    assert_eq!(role_mask(false, true, true), 2);
    assert_eq!(role_mask(false, false, true), 4);
    assert_eq!(role_mask(false, false, false), 7);
    assert_eq!(LIST_SCOUTING_INTERVAL, 2);
}
