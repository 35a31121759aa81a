use lostlove::connection::ConnectionManager;
use lostlove::error::LostLoveError;
use lostlove::router::PacketRouter;
use lostlove::session::{PeerAddr, SessionId, SessionState};

fn local_peer() -> PeerAddr {
    PeerAddr::V4(0x7F00_0001, 8080)
}

#[test]
fn test_router_creation() {
    let manager = ConnectionManager::new(10);
    let router = PacketRouter::new(manager);

    assert_eq!(router.active_routes(), 0);
}

#[test]
fn test_route_to_nonexistent_session() {
    let manager = ConnectionManager::new(10);
    let mut router = PacketRouter::new(manager);

    let session_id = SessionId::new();
    let packet = vec![0u8; 100];

    let result = router.route_to_tun(&packet, &session_id, 0);
    assert!(result.is_err());
}

#[test]
fn test_route_with_active_session() {
    let mut router = PacketRouter::new(ConnectionManager::new(10));
    let session_id = router.connection_manager_mut().create_connection(local_peer(), 0, 0).unwrap();
    {
        let m = router.connection_manager_mut();
        let i = m.find_connection(&session_id).unwrap();
        m.connection_at_mut(i).session_mut().set_state(SessionState::Active);
    }

    let packet = vec![0u8; 100];
    let result = router.route_from_tun(&packet, &session_id);
    assert!(result.is_ok());

    let stats = router.connection_manager().get_connection(&session_id).unwrap().session().stats();
    assert_eq!(stats.packets_sent, 1);
    assert_eq!(stats.bytes_sent, 100);
}

#[test]
fn route_from_tun_needs_an_active_session() {
    let mut router = PacketRouter::new(ConnectionManager::new(10));
    let id = router.connection_manager_mut().create_connection(local_peer(), 0, 0).unwrap();
    assert!(matches!(router.route_from_tun(&[1, 2, 3], &id), Err(LostLoveError::Connection(_))));
    let unknown = SessionId::from_string("nobody".to_string());
    assert_eq!(
        router.route_from_tun(&[1], &unknown).unwrap_err(),
        LostLoveError::SessionNotFound("nobody".to_string())
    );
}

#[test]
fn route_to_tun_counts_and_returns_the_packet() {
    let mut router = PacketRouter::new(ConnectionManager::new(10));
    let id = router.connection_manager_mut().create_connection(local_peer(), 0, 0).unwrap();
    let out = router.route_to_tun(&[7, 8, 9], &id, 40).unwrap();
    assert_eq!(out, vec![7, 8, 9]);
    let session = router.connection_manager().get_connection(&id).unwrap().session();
    assert_eq!(session.stats().packets_received, 1);
    assert_eq!(session.stats().bytes_received, 3);
    assert_eq!(session.time_since_activity(40), 0);
}

#[test]
fn route_p2p_counts_both_sides() {
    let mut router = PacketRouter::new(ConnectionManager::new(10));
    let a = router.connection_manager_mut().create_connection(local_peer(), 0, 0).unwrap();
    let b = router.connection_manager_mut().create_connection(local_peer(), 0, 0).unwrap();
    router.route_p2p(&[0u8; 10], &a, &b).unwrap();
    let m = router.connection_manager();
    assert_eq!(m.get_connection(&a).unwrap().session().stats().bytes_sent, 10);
    assert_eq!(m.get_connection(&b).unwrap().session().stats().bytes_received, 10);
    let unknown = SessionId::from_string("gone".to_string());
    assert_eq!(
        router.route_p2p(&[1], &a, &unknown).unwrap_err(),
        LostLoveError::SessionNotFound("gone".to_string())
    );
}
