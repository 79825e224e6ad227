use vstd::prelude::*;
use crate::document::{
    doc_get_datetime_ms, doc_get_i64, doc_get_uuid, doc_insert_datetime_ms, doc_insert_i64,
    doc_insert_uuid, doc_model, doc_new, field_datetime_ms, field_fault_error, field_i64,
    field_uuid, BsonModel,
};
use crate::error::{DecodeError, ErrView, FieldKind};
use crate::status::TicketStatus;
use bson::Document;

verus! {

/// One support ticket, as persisted. Identifiers are 64-bit platform IDs;
/// the ticket's own identifier is a 128-bit UUID held as an integer whose
/// big-endian bytes are the UUID's bytes; timestamps are UTC instants held
/// as milliseconds since the Unix epoch. Callers keep `updated_at` at or
/// after `created_at`; the codec does not enforce that.
#[derive(Clone, Copy, Debug, PartialEq, Eq, Structural)]
pub struct Ticket {
    pub user_id: i64,
    pub server_id: i64,
    pub channel_id: i64,
    pub ticket_id: u128,
    pub created_at: i64,
    pub updated_at: i64,
    pub status: TicketStatus,
}

impl Ticket {
    /// The document a ticket encodes to: its seven fields, with the status
    /// as its table code.
    pub open spec fn spec_encode(self) -> Map<Seq<char>, BsonModel> {
        Map::empty().insert("user_id"@, BsonModel::Int64(self.user_id)).insert(
            "server_id"@,
            BsonModel::Int64(self.server_id),
        ).insert("channel_id"@, BsonModel::Int64(self.channel_id)).insert(
            "ticket_id"@,
            BsonModel::Uuid(self.ticket_id),
        ).insert("created_at"@, BsonModel::DateTime(self.created_at)).insert(
            "updated_at"@,
            BsonModel::DateTime(self.updated_at),
        ).insert("status"@, BsonModel::Int64(self.status.spec_code()))
    }

    /// The ticket a document decodes to, or the exact fault: fields are
    /// checked in the order of the stored layout, and the first absent,
    /// wrongly typed or invalid one fails the whole decode.
    pub open spec fn spec_decode(m: Map<Seq<char>, BsonModel>) -> Result<Ticket, ErrView> {
        match field_i64(m, "user_id"@) {
            Err(e) => Err(e),
            Ok(user_id) => match field_i64(m, "server_id"@) {
                Err(e) => Err(e),
                Ok(server_id) => match field_i64(m, "channel_id"@) {
                    Err(e) => Err(e),
                    Ok(channel_id) => match field_uuid(m, "ticket_id"@) {
                        Err(e) => Err(e),
                        Ok(ticket_id) => match field_datetime_ms(m, "created_at"@) {
                            Err(e) => Err(e),
                            Ok(created_at) => match field_datetime_ms(m, "updated_at"@) {
                                Err(e) => Err(e),
                                Ok(updated_at) => match field_i64(m, "status"@) {
                                    Err(e) => Err(e),
                                    Ok(code) => match TicketStatus::spec_from_code(code) {
                                        Err(e) => Err(e),
                                        Ok(status) => Ok(
                                            Ticket {
                                                user_id,
                                                server_id,
                                                channel_id,
                                                ticket_id,
                                                created_at,
                                                updated_at,
                                                status,
                                            },
                                        ),
                                    },
                                },
                            },
                        },
                    },
                },
            },
        }
    }

    pub fn encode(&self) -> (d: Document)
        ensures
            doc_model(d) == self.spec_encode(),
    {
        let mut d = doc_new();
        doc_insert_i64(&mut d, "user_id", self.user_id);
        doc_insert_i64(&mut d, "server_id", self.server_id);
        doc_insert_i64(&mut d, "channel_id", self.channel_id);
        doc_insert_uuid(&mut d, "ticket_id", self.ticket_id);
        doc_insert_datetime_ms(&mut d, "created_at", self.created_at);
        doc_insert_datetime_ms(&mut d, "updated_at", self.updated_at);
        doc_insert_i64(&mut d, "status", self.status.code());
        d
    }

    pub fn decode(d: &Document) -> (r: Result<Ticket, DecodeError>)
        ensures
            crate::error::view_result(r) == Self::spec_decode(doc_model(*d)),
    {
        let user_id = match doc_get_i64(d, "user_id") {
            Ok(v) => v,
            Err(f) => {
                return Err(field_fault_error(f, d, "user_id", FieldKind::Int64));
            },
        };
        let server_id = match doc_get_i64(d, "server_id") {
            Ok(v) => v,
            Err(f) => {
                return Err(field_fault_error(f, d, "server_id", FieldKind::Int64));
            },
        };
        let channel_id = match doc_get_i64(d, "channel_id") {
            Ok(v) => v,
            Err(f) => {
                return Err(field_fault_error(f, d, "channel_id", FieldKind::Int64));
            },
        };
        let ticket_id = match doc_get_uuid(d, "ticket_id") {
            Ok(v) => v,
            Err(f) => {
                return Err(field_fault_error(f, d, "ticket_id", FieldKind::UuidBinary));
            },
        };
        let created_at = match doc_get_datetime_ms(d, "created_at") {
            Ok(v) => v,
            Err(f) => {
                return Err(field_fault_error(f, d, "created_at", FieldKind::DateTime));
            },
        };
        let updated_at = match doc_get_datetime_ms(d, "updated_at") {
            Ok(v) => v,
            Err(f) => {
                return Err(field_fault_error(f, d, "updated_at", FieldKind::DateTime));
            },
        };
        let code = match doc_get_i64(d, "status") {
            Ok(v) => v,
            Err(f) => {
                return Err(field_fault_error(f, d, "status", FieldKind::Int64));
            },
        };
        let status = match TicketStatus::from_code(code) {
            Ok(s) => s,
            Err(e) => {
                return Err(e);
            },
        };
        Ok(Ticket { user_id, server_id, channel_id, ticket_id, created_at, updated_at, status })
    }
}

/// The field names of a stored ticket.
pub open spec fn ticket_field_names() -> Set<Seq<char>> {
    set![
        "user_id"@,
        "server_id"@,
        "channel_id"@,
        "ticket_id"@,
        "created_at"@,
        "updated_at"@,
        "status"@,
    ]
}

/// The seven field names of a stored ticket denote seven distinct fields.
pub(crate) proof fn lemma_ticket_keys_distinct()
    ensures
        "user_id"@ != "server_id"@,
        "user_id"@ != "channel_id"@,
        "user_id"@ != "ticket_id"@,
        "user_id"@ != "created_at"@,
        "user_id"@ != "updated_at"@,
        "user_id"@ != "status"@,
        "server_id"@ != "channel_id"@,
        "server_id"@ != "ticket_id"@,
        "server_id"@ != "created_at"@,
        "server_id"@ != "updated_at"@,
        "server_id"@ != "status"@,
        "channel_id"@ != "ticket_id"@,
        "channel_id"@ != "created_at"@,
        "channel_id"@ != "updated_at"@,
        "channel_id"@ != "status"@,
        "ticket_id"@ != "created_at"@,
        "ticket_id"@ != "updated_at"@,
        "ticket_id"@ != "status"@,
        "created_at"@ != "updated_at"@,
        "created_at"@ != "status"@,
        "updated_at"@ != "status"@,
{
    reveal_strlit("user_id");
    reveal_strlit("server_id");
    reveal_strlit("channel_id");
    reveal_strlit("ticket_id");
    reveal_strlit("created_at");
    reveal_strlit("updated_at");
    reveal_strlit("status");
    assert("user_id"@.len() == 7);
    assert("server_id"@.len() == 9);
    assert("channel_id"@.len() == 10);
    assert("ticket_id"@.len() == 9);
    assert("created_at"@.len() == 10);
    assert("updated_at"@.len() == 10);
    assert("status"@.len() == 6);
    assert("server_id"@[0] == 's');
    assert("ticket_id"@[0] == 't');
    assert("channel_id"@[0] == 'c');
    assert("created_at"@[0] == 'c');
    assert("updated_at"@[0] == 'u');
    assert("channel_id"@[1] == 'h');
    assert("created_at"@[1] == 'r');
}

/// Round trip: decoding the document a ticket encodes to yields that same
/// ticket, field for field, for every ticket.
pub proof fn lemma_ticket_round_trip(t: Ticket)
    ensures
        Ticket::spec_decode(t.spec_encode()) == Ok::<Ticket, ErrView>(t),
{
    lemma_ticket_keys_distinct();
    crate::status::lemma_status_round_trip(t.status);
}

/// Missing field: removing any single required field from the document a
/// ticket encodes to makes decoding fail with `MissingField` naming exactly
/// that field.
pub proof fn lemma_ticket_missing_field(t: Ticket, name: Seq<char>)
    requires
        ticket_field_names().contains(name),
    ensures
        Ticket::spec_decode(t.spec_encode().remove(name)) == Err::<Ticket, ErrView>(
            ErrView::MissingField { field: name },
        ),
{
    lemma_ticket_keys_distinct();
}

/// Type mismatch: storing a string where the status code belongs makes
/// decoding fail with `TypeMismatch` on the status field, never a coercion.
pub proof fn lemma_ticket_status_string_rejected(t: Ticket, s: Seq<char>)
    ensures
        Ticket::spec_decode(t.spec_encode().insert("status"@, BsonModel::Str(s))) == Err::<
            Ticket,
            ErrView,
        >(
            ErrView::TypeMismatch {
                field: "status"@,
                expected: FieldKind::Int64,
                actual: FieldKind::Str,
            },
        ),
{
    lemma_ticket_keys_distinct();
}

} // verus!
