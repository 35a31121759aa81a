use lostlove::connection::{Connection, ConnectionManager, DataAction};
use lostlove::error::LostLoveError;
use lostlove::packet::{Packet, PacketType, HEADER_SIZE};
use lostlove::session::{PeerAddr, Session, SessionId, SessionState};

fn addr() -> PeerAddr {
    PeerAddr::V4(0x7F00_0001, 8080)
}

#[test]
fn test_connection_creation() {
    let connection = Connection::new(addr(), 0, 0);

    assert_eq!(connection.session().peer_address(), addr());
    assert!(!connection.is_handshake_completed());
}

#[test]
fn test_sequence_number() {
    let mut connection = Connection::new(addr(), 0, 0);

    assert_eq!(connection.next_sequence(), 0);
    assert_eq!(connection.next_sequence(), 1);
    assert_eq!(connection.next_sequence(), 2);
}

#[test]
fn test_connection_manager() {
    let mut manager = ConnectionManager::new(10);

    let session_id = manager.create_connection(addr(), 0, 0).unwrap();

    assert_eq!(manager.active_count(), 1);
    assert!(manager.get_connection(&session_id).is_some());

    manager.remove_connection(&session_id);
    assert_eq!(manager.active_count(), 0);
    assert!(manager.get_connection(&session_id).is_none());
}

#[test]
fn test_max_connections() {
    let mut manager = ConnectionManager::new(2);

    let _conn1 = manager.create_connection(addr(), 0, 0).unwrap();
    let _conn2 = manager.create_connection(addr(), 0, 0).unwrap();

    let result = manager.create_connection(addr(), 0, 0);
    assert!(result.is_err());
    assert_eq!(manager.active_count(), 2);
}

#[test]
fn test_connection_stats() {
    let mut manager = ConnectionManager::new(10);

    let id = manager.create_connection(addr(), 0, 0).unwrap();
    let i = manager.find_connection(&id).unwrap();
    {
        let session = manager.connection_at_mut(i).session_mut();
        session.record_packet_sent(100);
        session.record_packet_received(200);
    }

    let stats = manager.get_stats();
    assert_eq!(stats.active_connections, 1);
    assert_eq!(stats.total_packets_sent, 1);
    assert_eq!(stats.total_bytes_sent, 100);
    assert_eq!(stats.total_bytes_received, 200);
}

#[test]
fn test_session_creation() {
    let session = Session::new(addr(), 0, 0);

    assert_eq!(session.state(), SessionState::Handshaking);
    assert_eq!(session.peer_address(), addr());
}

#[test]
fn test_session_state_transition() {
    let mut session = Session::new(addr(), 0, 0);

    session.set_state(SessionState::Active);
    assert_eq!(session.state(), SessionState::Active);
    assert!(session.is_active());
}

#[test]
fn test_session_stats() {
    let mut session = Session::new(addr(), 0, 0);

    session.record_packet_sent(100);
    session.record_packet_received(200);

    let stats = session.stats();
    assert_eq!(stats.packets_sent, 1);
    assert_eq!(stats.packets_received, 1);
    assert_eq!(stats.bytes_sent, 100);
    assert_eq!(stats.bytes_received, 200);
}

#[test]
fn test_session_activity() {
    let mut session = Session::new(addr(), 0, 0);

    session.update_activity(1_000);

    let duration = session.time_since_activity(1_100);
    assert!(duration >= 100);
}

#[test]
fn registry_bound_scenario() {
    let mut manager = ConnectionManager::new(2);
    let first = manager.create_connection(addr(), 0, 0).unwrap();
    manager.create_connection(addr(), 0, 0).unwrap();
    assert_eq!(manager.create_connection(addr(), 0, 0).unwrap_err(), LostLoveError::TooManyConnections);
    assert_eq!(manager.active_count(), 2);
    assert!(manager.remove_connection(&first).is_some());
    manager.create_connection(addr(), 0, 0).unwrap();
    assert_eq!(manager.active_count(), 2);
    assert_eq!(manager.total_count(), 3);
}

#[test]
fn idle_reap_scenario() {
    let mut manager = ConnectionManager::new(10);
    let id = manager.create_connection(addr(), 0, 0).unwrap();
    manager.cleanup_stale(300_000, 301_000);
    assert!(manager.get_connection(&id).is_none());
    assert_eq!(manager.active_count(), 0);
    assert_eq!(manager.total_count(), 1);
}

#[test]
fn cleanup_keeps_recent_connections() {
    let mut manager = ConnectionManager::new(10);
    let old = manager.create_connection(addr(), 0, 0).unwrap();
    let fresh = manager.create_connection(addr(), 0, 200_000).unwrap();
    manager.cleanup_stale(300_000, 300_001);
    assert!(manager.get_connection(&old).is_none());
    assert!(manager.get_connection(&fresh).is_some());
    assert_eq!(manager.active_count(), 1);
    manager.cleanup_stale(300_000, 500_000);
    assert!(manager.get_connection(&fresh).is_some());
}

#[test]
fn removing_twice_is_harmless() {
    let mut manager = ConnectionManager::new(3);
    let id = manager.create_connection(addr(), 0, 0).unwrap();
    assert!(manager.remove_connection(&id).is_some());
    assert!(manager.remove_connection(&id).is_none());
    assert_eq!(manager.active_count(), 0);
}

#[test]
fn duplicate_ids_are_refused() {
    let mut manager = ConnectionManager::new(3);
    let id = SessionId::from_string("fixed".to_string());
    manager.create_connection_with_id(id.clone(), addr(), 0, 0).unwrap();
    assert!(matches!(
        manager.create_connection_with_id(id, addr(), 0, 0),
        Err(LostLoveError::Connection(_))
    ));
    assert_eq!(manager.active_count(), 1);
    assert_eq!(manager.total_count(), 1);
}

#[test]
fn all_sessions_lists_every_id() {
    let mut manager = ConnectionManager::new(3);
    let a = manager.create_connection(addr(), 0, 0).unwrap();
    let b = manager.create_connection(addr(), 0, 0).unwrap();
    let ids = manager.get_all_sessions();
    assert_eq!(ids.len(), 2);
    assert!(ids.contains(&a) && ids.contains(&b));
    assert_ne!(a, b);
}

#[test]
fn session_state_never_goes_back() {
    let mut session = Session::new(addr(), 0, 0);
    session.set_state(SessionState::Disconnecting);
    session.set_state(SessionState::Active);
    assert_eq!(session.state(), SessionState::Disconnecting);
    session.set_state(SessionState::Closed);
    assert_eq!(session.state(), SessionState::Closed);
}

#[test]
fn activity_time_never_goes_back() {
    let mut session = Session::new(addr(), 0, 500);
    session.update_activity(100);
    assert_eq!(session.time_since_activity(600), 100);
    session.update_activity(900);
    assert_eq!(session.time_since_activity(1_000), 100);
    assert!(!session.should_timeout(100, 1_000));
    assert!(session.should_timeout(99, 1_000));
    assert_eq!(session.time_since_activity(0), 0);
    assert_eq!(session.uptime(50), 50);
}

#[test]
fn counters_saturate_instead_of_wrapping() {
    let mut session = Session::new(addr(), 0, 0);
    session.record_packet_sent(usize::MAX);
    session.record_packet_sent(10);
    assert_eq!(session.stats().bytes_sent, u64::MAX);
    assert_eq!(session.stats().packets_sent, 2);
    session.record_error();
    assert_eq!(session.stats().errors, 1);
}

#[test]
fn data_packet_is_acknowledged() {
    let mut conn = Connection::new(addr(), 0, 0);
    let incoming = Packet::new_with_metadata_at(PacketType::Data, 3, 9, 77, b"hi".to_vec()).serialize();
    match conn.handle_data_packet(&incoming, 50, 1234) {
        DataAction::Reply(ack) => {
            assert_eq!(ack.header.packet_type, PacketType::Ack);
            assert!(ack.payload.is_empty());
            assert_eq!(ack.header.timestamp, 1234);
            let decoded = Packet::deserialize(&ack.serialize()).unwrap();
            assert_eq!(decoded.header, ack.header);
        }
        _ => panic!("expected a reply"),
    }
    let stats = conn.session().stats();
    assert_eq!(stats.packets_received, 1);
    assert_eq!(stats.bytes_received, (HEADER_SIZE + 2) as u64);
    assert_eq!(stats.packets_sent, 1);
    assert_eq!(stats.bytes_sent, HEADER_SIZE as u64);
    assert_eq!(conn.session().time_since_activity(50), 0);
}

#[test]
fn keepalive_disconnect_and_garbage() {
    let mut conn = Connection::new(addr(), 0, 0);
    let keepalive = Packet::new_with_metadata_at(PacketType::KeepAlive, 0, 0, 1, Vec::new()).serialize();
    match conn.handle_data_packet(&keepalive, 1, 2) {
        DataAction::Reply(p) => assert_eq!(p.header.packet_type, PacketType::KeepAlive),
        _ => panic!("expected a keep-alive reply"),
    }
    let ack = Packet::new_with_metadata_at(PacketType::Ack, 0, 0, 1, Vec::new()).serialize();
    assert!(matches!(conn.handle_data_packet(&ack, 2, 2), DataAction::Skip));
    let bye = Packet::new_with_metadata_at(PacketType::Disconnect, 0, 0, 1, Vec::new()).serialize();
    assert!(matches!(conn.handle_data_packet(&bye, 3, 2), DataAction::Close));
    assert!(matches!(conn.handle_data_packet(&[1, 2, 3], 4, 2), DataAction::Skip));
    assert_eq!(conn.session().stats().errors, 1);
    assert_eq!(conn.session().stats().packets_received, 3);
}

#[test]
fn session_id_text_round_trip() {
    let id = SessionId::from_string("abc-123".to_string());
    assert_eq!(id.as_str(), "abc-123");
    assert!(id.same_as(&SessionId::from_string("abc-123".to_string())));
    assert_eq!(SessionId::new().as_str().len(), 36);
}

#[test]
fn empty_registry_with_room_always_accepts() {
    let mut manager = ConnectionManager::new(1);
    let id = manager.create_connection(addr(), 5, 6).unwrap();
    assert_eq!(id.as_str().len(), 36);
    let c = manager.get_connection(&id).unwrap();
    assert_eq!(c.session().peer_address(), addr());
    assert_eq!(c.session().state(), SessionState::Handshaking);
    assert_eq!(manager.total_count(), 1);
    assert_eq!(manager.create_connection(addr(), 0, 0).unwrap_err(), LostLoveError::TooManyConnections);
}
