use vstd::prelude::*;

verus! {

/// One kind of stored value, as a decoder names it when it says what it
/// expected of a field and what it found there. `UuidBinary` is binary data
/// of the standard UUID subtype; a found binary value of any subtype is
/// reported as `Binary`; `Other` covers every stored kind this codec never
/// writes.
#[derive(Clone, Copy, Debug, PartialEq, Eq, Structural)]
pub enum FieldKind {
    Int64,
    Str,
    Double,
    DateTime,
    UuidBinary,
    Binary,
    Doc,
    Array,
    Other,
}

/// Outcome of probing a document for a single field, before the field's
/// name and expected kind are attached to build a `DecodeError`.
#[derive(Clone, Copy, Debug, PartialEq, Eq, Structural)]
pub enum FieldFault {
    /// The field is absent.
    Missing,
    /// The field is present but stored as another kind.
    WrongType,
    /// The field is binary data that does not carry a standard UUID.
    MalformedUuid,
}

/// Why a document could not be decoded into a record. Every fault is fatal
/// to the whole decode: no field is ever defaulted or partially filled.
#[derive(Clone, Debug, PartialEq, Eq)]
pub enum DecodeError {
    /// A required field is absent from the document.
    MissingField { field: String },
    /// A required field is present but stored as the wrong kind.
    TypeMismatch { field: String, expected: FieldKind, actual: FieldKind },
    /// An enum field holds an integer outside its fixed code table.
    InvalidEnumCode { field: String, value: i64 },
    /// An identifier field holds binary data that is not a standard UUID.
    MalformedIdentifier { field: String },
    /// A timestamp field holds a scalar that denotes no instant. Stored
    /// timestamps are plain millisecond counts, which always reconstruct,
    /// so decoding itself never reports this; it completes the taxonomy
    /// for callers that convert timestamps from richer representations.
    MalformedTimestamp { field: String },
}

/// The mathematical value of a `DecodeError`: the same cause with the
/// field name as a sequence of characters.
pub enum ErrView {
    MissingField { field: Seq<char> },
    TypeMismatch { field: Seq<char>, expected: FieldKind, actual: FieldKind },
    InvalidEnumCode { field: Seq<char>, value: i64 },
    MalformedIdentifier { field: Seq<char> },
    MalformedTimestamp { field: Seq<char> },
}

impl View for DecodeError {
    type V = ErrView;

    open spec fn view(&self) -> ErrView {
        match self {
            DecodeError::MissingField { field } => ErrView::MissingField { field: field@ },
            DecodeError::TypeMismatch { field, expected, actual } => ErrView::TypeMismatch {
                field: field@,
                expected: *expected,
                actual: *actual,
            },
            DecodeError::InvalidEnumCode { field, value } => ErrView::InvalidEnumCode {
                field: field@,
                value: *value,
            },
            DecodeError::MalformedIdentifier { field } => ErrView::MalformedIdentifier {
                field: field@,
            },
            DecodeError::MalformedTimestamp { field } => ErrView::MalformedTimestamp {
                field: field@,
            },
        }
    }
}

/// A decode result with its error taken to the mathematical level.
pub open spec fn view_result<T>(r: Result<T, DecodeError>) -> Result<T, ErrView> {
    match r {
        Ok(t) => Ok(t),
        Err(e) => Err(e@),
    }
}

} // verus!
