use bson::spec::BinarySubtype;
use bson::Bson;
use chrono::TimeZone;
use ticket_codec::error::{DecodeError, FieldKind};
use ticket_codec::status::TicketStatus;
use ticket_codec::ticket::Ticket;

fn sample_ticket() -> Ticket {
    Ticket {
        user_id: 42,
        server_id: -7,
        channel_id: 991,
        ticket_id: uuid::Uuid::parse_str("123e4567-e89b-12d3-a456-426614174000")
            .unwrap()
            .as_u128(),
        created_at: 1_700_000_000_123,
        updated_at: 1_700_000_111_456,
        status: TicketStatus::InProgress,
    }
}

#[test]
fn ticket_concrete_encoding_and_round_trip() {
    let t = sample_ticket();
    let doc = t.encode();
    assert_eq!(doc.get_i64("status"), Ok(2));
    assert_eq!(doc.get_i64("user_id"), Ok(42));
    match doc.get("ticket_id") {
        Some(Bson::Binary(bin)) => {
            assert_eq!(bin.subtype, BinarySubtype::Uuid);
            assert_eq!(
                bin.bytes,
                uuid::Uuid::parse_str("123e4567-e89b-12d3-a456-426614174000")
                    .unwrap()
                    .as_bytes()
                    .to_vec()
            );
        }
        other => panic!("ticket_id stored as {:?}", other),
    }
    let back = Ticket::decode(&doc).unwrap();
    assert_eq!(back, t);
    assert_eq!(back.status, TicketStatus::InProgress);
    assert_eq!(
        uuid::Uuid::from_u128(back.ticket_id).to_string(),
        "123e4567-e89b-12d3-a456-426614174000"
    );
}

#[test]
fn ticket_missing_any_field_names_that_field() {
    let fields = [
        "user_id",
        "server_id",
        "channel_id",
        "ticket_id",
        "created_at",
        "updated_at",
        "status",
    ];
    for field in fields {
        let mut doc = sample_ticket().encode();
        doc.remove(field);
        assert_eq!(
            Ticket::decode(&doc),
            Err(DecodeError::MissingField { field: field.to_string() }),
        );
    }
}

#[test]
fn ticket_status_stored_as_string_is_a_type_mismatch() {
    let mut doc = sample_ticket().encode();
    doc.insert("status", "open");
    assert_eq!(
        Ticket::decode(&doc),
        Err(DecodeError::TypeMismatch {
            field: "status".to_string(),
            expected: FieldKind::Int64,
            actual: FieldKind::Str,
        }),
    );
}

#[test]
fn ticket_status_code_outside_table_is_invalid() {
    let mut doc = sample_ticket().encode();
    doc.insert("status", 6_i64);
    assert_eq!(
        Ticket::decode(&doc),
        Err(DecodeError::InvalidEnumCode { field: "status".to_string(), value: 6 }),
    );
}

#[test]
fn ticket_identifier_of_another_binary_shape_is_malformed() {
    let mut doc = sample_ticket().encode();
    doc.insert(
        "ticket_id",
        Bson::Binary(bson::Binary { subtype: BinarySubtype::Generic, bytes: vec![1, 2, 3] }),
    );
    assert_eq!(
        Ticket::decode(&doc),
        Err(DecodeError::MalformedIdentifier { field: "ticket_id".to_string() }),
    );
}

#[test]
fn ticket_identifier_stored_as_string_is_a_type_mismatch() {
    let mut doc = sample_ticket().encode();
    doc.insert("ticket_id", "123e4567-e89b-12d3-a456-426614174000");
    assert_eq!(
        Ticket::decode(&doc),
        Err(DecodeError::TypeMismatch {
            field: "ticket_id".to_string(),
            expected: FieldKind::UuidBinary,
            actual: FieldKind::Str,
        }),
    );
}

#[test]
fn ticket_timestamp_stored_as_integer_is_a_type_mismatch() {
    let mut doc = sample_ticket().encode();
    doc.insert("created_at", 1_700_000_000_123_i64);
    assert_eq!(
        Ticket::decode(&doc),
        Err(DecodeError::TypeMismatch {
            field: "created_at".to_string(),
            expected: FieldKind::DateTime,
            actual: FieldKind::Int64,
        }),
    );
}

#[test]
fn ticket_timestamps_keep_millisecond_utc_instants() {
    // An instant written in a non-UTC zone with sub-millisecond precision.
    let zone = chrono::FixedOffset::east_opt(3 * 3600).unwrap();
    let local = zone.with_ymd_and_hms(2023, 5, 17, 9, 30, 21).unwrap()
        + chrono::Duration::nanoseconds(678_901_234);
    let mut t = sample_ticket();
    t.created_at = local.timestamp_millis();
    t.updated_at = local.timestamp_millis();
    let back = Ticket::decode(&t.encode()).unwrap();
    assert_eq!(back.created_at, local.timestamp_millis());
    let utc = chrono::Utc.timestamp_millis_opt(back.created_at).unwrap();
    assert_eq!(utc.timezone(), chrono::Utc);
    // Equal to the original at millisecond resolution: the 678 milliseconds
    // survive, the 901_234 nanoseconds below them are truncated.
    assert_eq!(utc, local.with_timezone(&chrono::Utc) - chrono::Duration::nanoseconds(901_234));
    assert_eq!(utc.timestamp_subsec_millis(), 678);
}

#[test]
fn ticket_encoded_datetime_is_a_native_datetime() {
    let t = sample_ticket();
    let doc = t.encode();
    assert_eq!(
        doc.get_datetime("created_at"),
        Ok(&bson::DateTime::from_millis(1_700_000_000_123))
    );
    assert_eq!(
        doc.get_datetime("updated_at"),
        Ok(&bson::DateTime::from_millis(1_700_000_111_456))
    );
}

#[test]
fn ticket_integer_field_holding_binary_reports_binary_as_found() {
    let mut doc = sample_ticket().encode();
    doc.insert("user_id", bson::Uuid::from_bytes([7; 16]));
    assert_eq!(
        Ticket::decode(&doc),
        Err(DecodeError::TypeMismatch {
            field: "user_id".to_string(),
            expected: FieldKind::Int64,
            actual: FieldKind::Binary,
        }),
    );
}

#[test]
fn ticket_status_holding_a_boolean_reports_an_unwritten_kind() {
    let mut doc = sample_ticket().encode();
    doc.insert("status", true);
    assert_eq!(
        Ticket::decode(&doc),
        Err(DecodeError::TypeMismatch {
            field: "status".to_string(),
            expected: FieldKind::Int64,
            actual: FieldKind::Other,
        }),
    );
}
