use mysten_infra::anemo::common::ConnectionOrigin::{Inbound, Outbound};
use mysten_infra::anemo::common::{ConnectionOrigin, PeerId};
use mysten_infra::anemo::network::{
    simultaneous_dial_tie_breaking, AddPeerOutcome, ConnectionInfo, ConnectionTable,
};

fn peer(b: u8) -> PeerId {
    PeerId([b; 32])
}

fn info(origin: ConnectionOrigin, stable_id: usize) -> ConnectionInfo {
    ConnectionInfo { origin, stable_id }
}

#[test]
fn tie_breaking_rules() {
    let small = peer(1);
    let big = peer(2);
    // Same origin twice: the old connection is dropped.
    assert!(simultaneous_dial_tie_breaking(small, big, Inbound, Inbound));
    assert!(simultaneous_dial_tie_breaking(small, big, Outbound, Outbound));
    // Existing inbound, new outbound: drop the existing one iff the remote is smaller.
    assert!(!simultaneous_dial_tie_breaking(small, big, Inbound, Outbound));
    assert!(simultaneous_dial_tie_breaking(big, small, Inbound, Outbound));
    // Existing outbound, new inbound: drop the existing one iff we are smaller.
    assert!(simultaneous_dial_tie_breaking(small, big, Outbound, Inbound));
    assert!(!simultaneous_dial_tie_breaking(big, small, Outbound, Inbound));
}

#[test]
fn simultaneous_dial_both_sides_agree() {
    let a = peer(3);
    let b = peer(9);
    // Connection 1 is dialed by a, connection 2 by b. The greater peer (b) dialed
    // connection 2, which is Inbound at a and Outbound at b.
    for (a_first, b_first) in [(Outbound, Outbound), (Outbound, Inbound), (Inbound, Outbound), (Inbound, Inbound)] {
        let a_second = if a_first == Outbound { Inbound } else { Outbound };
        let b_second = if b_first == Outbound { Inbound } else { Outbound };
        let a_kept = if simultaneous_dial_tie_breaking(a, b, a_first, a_second) { a_second } else { a_first };
        let b_kept = if simultaneous_dial_tie_breaking(b, a, b_first, b_second) { b_second } else { b_first };
        assert_eq!(a_kept, Inbound);
        assert_eq!(b_kept, Outbound);
    }
}

#[test]
fn table_add_get_disconnect() {
    let own = peer(5);
    let mut table = ConnectionTable::new(own);
    assert!(table.peer_id().same_as(&own));
    assert!(table.peers().is_empty());

    assert_eq!(table.add_peer(peer(1), info(ConnectionOrigin::Outbound, 10)), AddPeerOutcome::Added);
    assert_eq!(table.add_peer(peer(7), info(ConnectionOrigin::Inbound, 11)), AddPeerOutcome::Added);
    let mut peers = table.peers();
    peers.sort();
    assert_eq!(peers, vec![peer(1), peer(7)]);

    assert_eq!(table.get(&peer(1)), Some(info(ConnectionOrigin::Outbound, 10)));
    assert_eq!(table.connection(&peer(7)), info(ConnectionOrigin::Inbound, 11));
    assert_eq!(table.get(&peer(2)), None);

    assert_eq!(table.disconnect(&peer(1)), Some(info(ConnectionOrigin::Outbound, 10)));
    assert_eq!(table.get(&peer(1)), None);
    assert_eq!(table.disconnect(&peer(1)), None);
    assert_eq!(table.peers(), vec![peer(7)]);
}

#[test]
fn table_add_existing_peer_uses_tie_break() {
    let own = peer(5);
    let mut table = ConnectionTable::new(own);
    // Remote peer 9 > own: keep the connection the remote dialed (Inbound here).
    assert_eq!(table.add_peer(peer(9), info(ConnectionOrigin::Inbound, 1)), AddPeerOutcome::Added);
    assert_eq!(table.add_peer(peer(9), info(ConnectionOrigin::Outbound, 2)), AddPeerOutcome::Rejected);
    assert_eq!(table.get(&peer(9)), Some(info(ConnectionOrigin::Inbound, 1)));
    // A second inbound connection replaces the first.
    assert_eq!(
        table.add_peer(peer(9), info(ConnectionOrigin::Inbound, 3)),
        AddPeerOutcome::Replaced(info(ConnectionOrigin::Inbound, 1))
    );
    assert_eq!(table.get(&peer(9)), Some(info(ConnectionOrigin::Inbound, 3)));

    // Remote peer 2 < own: keep the connection we dialed (Outbound).
    assert_eq!(table.add_peer(peer(2), info(ConnectionOrigin::Inbound, 4)), AddPeerOutcome::Added);
    assert_eq!(
        table.add_peer(peer(2), info(ConnectionOrigin::Outbound, 5)),
        AddPeerOutcome::Replaced(info(ConnectionOrigin::Inbound, 4))
    );
    assert_eq!(table.get(&peer(2)), Some(info(ConnectionOrigin::Outbound, 5)));
    assert_eq!(table.peers().len(), 2);
}
