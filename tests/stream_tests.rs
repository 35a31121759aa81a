use lostlove::stream::StreamId;

#[test]
fn test_stream_id() {
    let control = StreamId::control();
    assert!(control.is_control());
    assert_eq!(control.value(), 0);

    let stream = StreamId::new(42);
    assert!(!stream.is_control());
    assert_eq!(stream.value(), 42);
}

#[test]
fn test_stream_id_conversion() {
    let id: StreamId = 100u16.into();
    assert_eq!(id.value(), 100);

    let raw: u16 = id.into();
    assert_eq!(raw, 100);
}
