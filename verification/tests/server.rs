use bson::Bson;
use ticket_codec::error::{DecodeError, FieldKind};
use ticket_codec::server::{server, ChannelPar};
use ticket_codec::status::ChannelType;

fn sample_server() -> server {
    server {
        server_id: 1001,
        welcome_channel_id: 2002,
        channel_vec: vec![
            ChannelPar { channel_id: 10, guild_id: 1001, channel_type: ChannelType::News },
            ChannelPar { channel_id: 11, guild_id: 1001, channel_type: ChannelType::Neon },
            // A duplicate channel identifier is allowed and kept as stored.
            ChannelPar { channel_id: 10, guild_id: 1001, channel_type: ChannelType::Spam },
        ],
    }
}

#[test]
fn channel_par_round_trips() {
    let c = ChannelPar { channel_id: 5, guild_id: 77, channel_type: ChannelType::Bots };
    let doc = c.encode();
    assert_eq!(doc.get_i64("channel_type"), Ok(3));
    assert_eq!(ChannelPar::decode(&doc), Ok(c));
}

#[test]
fn channel_par_missing_field_names_that_field() {
    for field in ["channel_id", "guild_id", "channel_type"] {
        let c = ChannelPar { channel_id: 5, guild_id: 77, channel_type: ChannelType::Generic };
        let mut doc = c.encode();
        doc.remove(field);
        assert_eq!(
            ChannelPar::decode(&doc),
            Err(DecodeError::MissingField { field: field.to_string() }),
        );
    }
}

#[test]
fn server_round_trips_keeping_channel_order() {
    let s = sample_server();
    let back = server::decode(&s.encode()).unwrap();
    assert_eq!(back, s);
    assert_eq!(back.channel_vec[0].channel_type, ChannelType::News);
    assert_eq!(back.channel_vec[2].channel_id, 10);
}

#[test]
fn server_with_no_channels_round_trips_to_an_empty_list() {
    let s = server { server_id: 8, welcome_channel_id: 9, channel_vec: vec![] };
    let doc = s.encode();
    assert_eq!(doc.get_array("channel_vec"), Ok(&vec![]));
    assert_eq!(server::decode(&doc), Ok(s));
}

#[test]
fn server_missing_any_field_names_that_field() {
    for field in ["server_id", "welcome_channel_id", "channel_vec"] {
        let mut doc = sample_server().encode();
        doc.remove(field);
        assert_eq!(
            server::decode(&doc),
            Err(DecodeError::MissingField { field: field.to_string() }),
        );
    }
}

#[test]
fn server_channel_list_element_of_another_kind_is_a_type_mismatch() {
    let mut doc = sample_server().encode();
    doc.insert("channel_vec", vec![Bson::Int64(3)]);
    assert_eq!(
        server::decode(&doc),
        Err(DecodeError::TypeMismatch {
            field: "channel_vec".to_string(),
            expected: FieldKind::Doc,
            actual: FieldKind::Int64,
        }),
    );
}

#[test]
fn server_bad_channel_inside_the_list_fails_the_whole_decode() {
    let mut doc = sample_server().encode();
    let mut bad = ChannelPar { channel_id: 1, guild_id: 2, channel_type: ChannelType::News }
        .encode();
    bad.insert("channel_type", 9_i64);
    let good = ChannelPar { channel_id: 3, guild_id: 4, channel_type: ChannelType::Bots }.encode();
    doc.insert("channel_vec", vec![good, bad]);
    assert_eq!(
        server::decode(&doc),
        Err(DecodeError::InvalidEnumCode { field: "channel_type".to_string(), value: 9 }),
    );
}
