use ticket_codec::error::DecodeError;
use ticket_codec::status::{ChannelType, TicketStatus};

#[test]
fn status_codes_follow_the_table() {
    assert_eq!(TicketStatus::Open.code(), 1);
    assert_eq!(TicketStatus::InProgress.code(), 2);
    assert_eq!(TicketStatus::Freezed.code(), 3);
    assert_eq!(TicketStatus::Closed.code(), 4);
    assert_eq!(TicketStatus::Archived.code(), 5);
}

#[test]
fn status_round_trips_for_all_variants() {
    let all = [
        TicketStatus::Open,
        TicketStatus::InProgress,
        TicketStatus::Freezed,
        TicketStatus::Closed,
        TicketStatus::Archived,
    ];
    for s in all {
        assert_eq!(TicketStatus::from_code(s.code()), Ok(s));
    }
}

#[test]
fn status_code_six_is_invalid() {
    assert_eq!(
        TicketStatus::from_code(6),
        Err(DecodeError::InvalidEnumCode { field: "status".to_string(), value: 6 })
    );
}

#[test]
fn status_code_zero_is_invalid() {
    assert_eq!(
        TicketStatus::from_code(0),
        Err(DecodeError::InvalidEnumCode { field: "status".to_string(), value: 0 })
    );
}

#[test]
fn channel_type_codes_follow_the_table() {
    assert_eq!(ChannelType::Generic.code(), 1);
    assert_eq!(ChannelType::News.code(), 2);
    assert_eq!(ChannelType::Bots.code(), 3);
    assert_eq!(ChannelType::Neon.code(), 4);
    assert_eq!(ChannelType::Spam.code(), 5);
}

#[test]
fn channel_type_round_trips_for_all_variants() {
    let all = [
        ChannelType::Generic,
        ChannelType::News,
        ChannelType::Bots,
        ChannelType::Neon,
        ChannelType::Spam,
    ];
    for c in all {
        assert_eq!(ChannelType::from_code(c.code()), Ok(c));
    }
}

#[test]
fn channel_type_code_six_is_invalid() {
    assert_eq!(
        ChannelType::from_code(6),
        Err(DecodeError::InvalidEnumCode { field: "channel_type".to_string(), value: 6 })
    );
}
