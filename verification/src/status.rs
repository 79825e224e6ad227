use vstd::prelude::*;
use vstd::string::*;
use crate::error::{DecodeError, ErrView};

verus! {

/// The lifecycle state of a support ticket. Stored as an integer from a
/// fixed code table; the table, not the order of the variants here, is the
/// source of truth and must never be renumbered.
#[derive(Clone, Copy, Debug, PartialEq, Eq, Structural)]
pub enum TicketStatus {
    Open,
    InProgress,
    Freezed,
    Closed,
    Archived,
}

impl TicketStatus {
    /// The fixed storage code of this status.
    pub open spec fn spec_code(self) -> i64 {
        match self {
            TicketStatus::Open => 1,
            TicketStatus::InProgress => 2,
            TicketStatus::Freezed => 3,
            TicketStatus::Closed => 4,
            TicketStatus::Archived => 5,
        }
    }

    pub fn code(&self) -> (c: i64)
        ensures
            c == self.spec_code(),
    {
        match self {
            TicketStatus::Open => 1,
            TicketStatus::InProgress => 2,
            TicketStatus::Freezed => 3,
            TicketStatus::Closed => 4,
            TicketStatus::Archived => 5,
        }
    }

    /// The status a stored code denotes: exactly the codes 1 through 5 are
    /// valid, and any other integer is a corruption signal.
    pub open spec fn spec_from_code(code: i64) -> Result<TicketStatus, ErrView> {
        if code == 1 {
            Ok(TicketStatus::Open)
        } else if code == 2 {
            Ok(TicketStatus::InProgress)
        } else if code == 3 {
            Ok(TicketStatus::Freezed)
        } else if code == 4 {
            Ok(TicketStatus::Closed)
        } else if code == 5 {
            Ok(TicketStatus::Archived)
        } else {
            Err(ErrView::InvalidEnumCode { field: "status"@, value: code })
        }
    }

    pub fn from_code(code: i64) -> (r: Result<TicketStatus, DecodeError>)
        ensures
            crate::error::view_result(r) == Self::spec_from_code(code),
    {
        match code {
            1 => Ok(TicketStatus::Open),
            2 => Ok(TicketStatus::InProgress),
            3 => Ok(TicketStatus::Freezed),
            4 => Ok(TicketStatus::Closed),
            5 => Ok(TicketStatus::Archived),
            _ => Err(
                DecodeError::InvalidEnumCode { field: String::from_str("status"), value: code },
            ),
        }
    }
}

/// Decoding the code that a status was encoded to yields that same status,
/// for every status.
pub proof fn lemma_status_round_trip(s: TicketStatus)
    ensures
        TicketStatus::spec_from_code(s.spec_code()) == Ok::<TicketStatus, ErrView>(s),
{
}

/// The purpose a configured channel serves. Stored as an integer from a
/// fixed code table; the table must never be renumbered.
#[derive(Clone, Copy, Debug, PartialEq, Eq, Structural)]
pub enum ChannelType {
    Generic,
    News,
    Bots,
    Neon,
    Spam,
}

impl ChannelType {
    /// The fixed storage code of this channel type.
    pub open spec fn spec_code(self) -> i64 {
        match self {
            ChannelType::Generic => 1,
            ChannelType::News => 2,
            ChannelType::Bots => 3,
            ChannelType::Neon => 4,
            ChannelType::Spam => 5,
        }
    }

    pub fn code(&self) -> (c: i64)
        ensures
            c == self.spec_code(),
    {
        match self {
            ChannelType::Generic => 1,
            ChannelType::News => 2,
            ChannelType::Bots => 3,
            ChannelType::Neon => 4,
            ChannelType::Spam => 5,
        }
    }

    /// The channel type a stored code denotes: exactly the codes 1 through 5
    /// are valid.
    pub open spec fn spec_from_code(code: i64) -> Result<ChannelType, ErrView> {
        if code == 1 {
            Ok(ChannelType::Generic)
        } else if code == 2 {
            Ok(ChannelType::News)
        } else if code == 3 {
            Ok(ChannelType::Bots)
        } else if code == 4 {
            Ok(ChannelType::Neon)
        } else if code == 5 {
            Ok(ChannelType::Spam)
        } else {
            Err(ErrView::InvalidEnumCode { field: "channel_type"@, value: code })
        }
    }

    pub fn from_code(code: i64) -> (r: Result<ChannelType, DecodeError>)
        ensures
            crate::error::view_result(r) == Self::spec_from_code(code),
    {
        match code {
            1 => Ok(ChannelType::Generic),
            2 => Ok(ChannelType::News),
            3 => Ok(ChannelType::Bots),
            4 => Ok(ChannelType::Neon),
            5 => Ok(ChannelType::Spam),
            _ => Err(
                DecodeError::InvalidEnumCode {
                    field: String::from_str("channel_type"),
                    value: code,
                },
            ),
        }
    }
}

/// Decoding the code that a channel type was encoded to yields that same
/// channel type, for every channel type.
pub proof fn lemma_channel_type_round_trip(c: ChannelType)
    ensures
        ChannelType::spec_from_code(c.spec_code()) == Ok::<ChannelType, ErrView>(c),
{
}

} // verus!
