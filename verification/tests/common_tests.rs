use mysten_infra::anemo::common::{ConnectionOrigin, PeerId};

#[test]
fn connection_origin_debug() {
    let inbound = ConnectionOrigin::Inbound.debug_str();
    let outbound = ConnectionOrigin::Outbound.debug_str();

    assert_eq!(inbound, "ConnectionOrigin::Inbound");
    assert_eq!(outbound, "ConnectionOrigin::Outbound");
}

#[test]
fn connection_origin_display() {
    let inbound = ConnectionOrigin::Inbound.to_string();
    let outbound = ConnectionOrigin::Outbound.to_string();

    assert_eq!(inbound, "inbound");
    assert_eq!(outbound, "outbound");
}

#[test]
fn connection_origin_as_str() {
    assert_eq!(ConnectionOrigin::Inbound.as_str(), "inbound");
    assert_eq!(ConnectionOrigin::Outbound.as_str(), "outbound");
}

fn peer(first: u8, last: u8) -> PeerId {
    let mut key = [7u8; 32];
    key[0] = first;
    key[31] = last;
    PeerId(key)
}

#[test]
fn peer_id_order_is_bytewise() {
    let a = peer(1, 200);
    let b = peer(2, 0);
    assert!(a.less_than(&b));
    assert!(!b.less_than(&a));
    assert!(!a.less_than(&a));
    // Differing only in the last byte.
    let c = peer(1, 201);
    assert!(a.less_than(&c));
    assert!(!c.less_than(&a));
    // Agrees with the derived ordering.
    assert_eq!(a.less_than(&b), a < b);
    assert_eq!(c.less_than(&a), c < a);
}

#[test]
fn peer_id_same_as() {
    let a = peer(1, 2);
    assert!(a.same_as(&peer(1, 2)));
    assert!(!a.same_as(&peer(1, 3)));
    assert!(!a.same_as(&peer(0, 2)));
}
