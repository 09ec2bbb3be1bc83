use horizon_common::{Ack, Envelope, PlayerId, Timestamp};

#[test]
fn test_envelope_creation() {
    let msg = Ack::success("test-123");
    let envelope = Envelope::new("horizon-1", "atlas", msg);
    assert_eq!(envelope.source, "horizon-1");
    assert_eq!(envelope.destination, "atlas");
}

#[test]
fn ack_success_names_the_message() {
    let ack = Ack::success("test-123");
    assert_eq!(ack.message_id, "test-123");
    assert!(ack.success);
    assert_eq!(ack.error, None);
}

#[test]
fn ack_failure_carries_the_reason() {
    let ack = Ack::failure("test-456", "no such player");
    assert_eq!(ack.message_id, "test-456");
    assert!(!ack.success);
    assert_eq!(ack.error.as_deref(), Some("no such player"));
}

#[test]
fn envelope_from_parts_keeps_every_part() {
    let e = Envelope::from_parts("id-1".to_string(), 1_700_000_000_123, "atlas", "maestro", 42u8);
    assert_eq!(e.id, "id-1");
    assert_eq!(e.timestamp_ms, 1_700_000_000_123);
    assert_eq!(e.source, "atlas");
    assert_eq!(e.destination, "maestro");
    assert_eq!(e.message, 42);
}

#[test]
fn new_envelopes_get_a_fresh_id_and_the_current_time() {
    let before = Timestamp::now().unix_millis();
    let a = Envelope::new("horizon-1", "atlas", 1u8);
    let b = Envelope::new("horizon-1", "atlas", 2u8);
    let after = Timestamp::now().unix_millis();
    assert_ne!(a.id, b.id);
    assert_eq!(a.id.len(), 36);
    let read = PlayerId::from_str(&a.id).unwrap();
    assert_eq!((read.0 >> 76) & 0xf, 4);
    assert_eq!(read.to_string(), a.id);
    assert!(a.timestamp_ms > 1_600_000_000_000);
    assert!(a.timestamp_ms.abs_diff(before) < 60_000);
    assert!(b.timestamp_ms.abs_diff(after) < 60_000);
    assert_eq!(a.message, 1);
    assert_eq!(b.message, 2);
}

#[test]
fn an_ack_names_the_envelope_it_answers() {
    let envelope = Envelope::new("horizon-1", "atlas", "ping");
    let ok = envelope.acknowledge();
    assert_eq!(ok.message_id, envelope.id);
    assert!(ok.success);
    assert_eq!(ok.error, None);
    let failed = envelope.reject("unknown message type");
    assert_eq!(failed.message_id, envelope.id);
    assert!(!failed.success);
    assert_eq!(failed.error.as_deref(), Some("unknown message type"));
}
