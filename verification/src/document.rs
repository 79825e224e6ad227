use vstd::prelude::*;
use vstd::string::*;
use crate::error::{DecodeError, ErrView, FieldFault, FieldKind};
use bson::Bson;
use bson::Document;

verus! {

/// The mathematical value of one stored BSON value, as this library reads it:
/// a 64-bit integer, a string, a 64-bit float given by its IEEE 754 bit
/// pattern, a UTC instant given in milliseconds since the Unix epoch, a
/// standard UUID given as the 128-bit integer whose big-endian bytes are the
/// stored ones, binary data of any other shape, an embedded document, an
/// ordered array, or any stored kind this library never writes.
pub enum BsonModel {
    Int64(i64),
    Str(Seq<char>),
    Double(u64),
    DateTime(i64),
    Uuid(u128),
    BinaryOther,
    Doc(Map<Seq<char>, BsonModel>),
    Arr(Seq<BsonModel>),
    Other,
}

#[verifier::external_type_specification]
#[verifier::external_body]
pub struct ExDocument(Document);

#[verifier::external_type_specification]
#[verifier::external_body]
pub struct ExBson(Bson);

/// What a document holds: each present field name mapped to the mathematical
/// value stored under it.
pub uninterp spec fn doc_model(d: Document) -> Map<Seq<char>, BsonModel>;

/// The mathematical value of one dynamically typed stored value.
pub uninterp spec fn bson_model(b: Bson) -> BsonModel;

/// Relies on bson::Document::new: a freshly created document has no fields.
#[verifier::external_body]
pub(crate) fn doc_new() -> (d: Document)
    ensures
        (doc_model(d) == Map::<Seq<char>, BsonModel>::empty()),
{
    Document::new()
}

/// Relies on bson::Document::insert and From<i64> for Bson: the value is
/// stored under the key as a 64-bit integer, replacing any earlier value.
#[verifier::external_body]
pub(crate) fn doc_insert_i64(d: &mut Document, key: &str, v: i64)
    ensures
        doc_model(*final(d)) == doc_model(*old(d)).insert(key@, BsonModel::Int64(v)),
{
    let _ = d.insert(key, v);
}

/// Relies on bson::Document::insert and From<&str> for Bson: the value is
/// stored under the key as a UTF-8 string, replacing any earlier value.
#[verifier::external_body]
pub(crate) fn doc_insert_str(d: &mut Document, key: &str, v: &str)
    ensures
        doc_model(*final(d)) == doc_model(*old(d)).insert(key@, BsonModel::Str(v@)),
{
    let _ = d.insert(key, v);
}

/// Relies on bson::Document::insert, the Bson::Double variant and
/// funty::Floating::from_bits, which forwards to the primitive `from_bits`:
/// the 64-bit float with exactly the given IEEE 754 bit pattern is stored
/// under the key, replacing any earlier value.
#[verifier::external_body]
pub(crate) fn doc_insert_double_bits(d: &mut Document, key: &str, bits: u64)
    ensures
        doc_model(*final(d)) == doc_model(*old(d)).insert(key@, BsonModel::Double(bits)),
{
    let _ = d.insert(key, Bson::Double(funty::Floating::from_bits(bits)));
}

/// Relies on bson::Document::insert, bson::DateTime::from_millis and
/// From<bson::DateTime> for Bson: the UTC instant at the given number of
/// milliseconds since the Unix epoch is stored under the key, replacing any
/// earlier value.
#[verifier::external_body]
pub(crate) fn doc_insert_datetime_ms(d: &mut Document, key: &str, ms: i64)
    ensures
        doc_model(*final(d)) == doc_model(*old(d)).insert(key@, BsonModel::DateTime(ms)),
{
    let _ = d.insert(key, bson::DateTime::from_millis(ms));
}

/// Relies on bson::Document::insert, bson::Uuid::from_bytes and
/// From<bson::Uuid> for Bson: a binary value of the standard UUID subtype
/// whose sixteen bytes are the big-endian bytes of the given integer is
/// stored under the key, replacing any earlier value.
#[verifier::external_body]
pub(crate) fn doc_insert_uuid(d: &mut Document, key: &str, v: u128)
    ensures
        doc_model(*final(d)) == doc_model(*old(d)).insert(key@, BsonModel::Uuid(v)),
{
    let _ = d.insert(key, bson::Uuid::from_bytes(v.to_be_bytes()));
}

/// Relies on bson::Document::insert and From<Document> for Bson: the given
/// document is stored under the key as an embedded document, replacing any
/// earlier value.
#[verifier::external_body]
pub(crate) fn doc_insert_doc(d: &mut Document, key: &str, sub: Document)
    ensures
        doc_model(*final(d)) == doc_model(*old(d)).insert(
            key@,
            BsonModel::Doc(doc_model(sub)),
        ),
{
    let _ = d.insert(key, sub);
}

/// Relies on bson::Document::insert and From<Vec<Document>> for Bson: the
/// given documents are stored under the key as an array of embedded
/// documents, in order, replacing any earlier value.
#[verifier::external_body]
pub(crate) fn doc_insert_docs(d: &mut Document, key: &str, subs: Vec<Document>)
    ensures
        doc_model(*final(d)) == doc_model(*old(d)).insert(
            key@,
            BsonModel::Arr(subs@.map_values(|sub: Document| BsonModel::Doc(doc_model(sub)))),
        ),
{
    let _ = d.insert(key, subs);
}

/// Relies on bson::Document::get and the Bson::Int64 variant: the stored
/// 64-bit integer comes back exactly when the field holds one.
#[verifier::external_body]
pub(crate) fn doc_get_i64(d: &Document, key: &str) -> (r: Result<i64, FieldFault>)
    ensures
        match r {
            Ok(v) => doc_model(*d).contains_key(key@) && doc_model(*d)[key@] == BsonModel::Int64(
                v,
            ),
            Err(f) => match f {
                FieldFault::Missing => !doc_model(*d).contains_key(key@),
                FieldFault::WrongType => doc_model(*d).contains_key(key@) && !(doc_model(
                    *d,
                )[key@] is Int64),
                FieldFault::MalformedUuid => false,
            },
        },
{
    match d.get(key) {
        Some(Bson::Int64(v)) => Ok(*v),
        Some(_) => Err(FieldFault::WrongType),
        None => Err(FieldFault::Missing),
    }
}

/// Relies on bson::Document::get and the Bson::String variant: the stored
/// string comes back, copied, exactly when the field holds one.
#[verifier::external_body]
pub(crate) fn doc_get_str(d: &Document, key: &str) -> (r: Result<String, FieldFault>)
    ensures
        match r {
            Ok(v) => doc_model(*d).contains_key(key@) && doc_model(*d)[key@] == BsonModel::Str(
                v@,
            ),
            Err(f) => match f {
                FieldFault::Missing => !doc_model(*d).contains_key(key@),
                FieldFault::WrongType => doc_model(*d).contains_key(key@) && !(doc_model(
                    *d,
                )[key@] is Str),
                FieldFault::MalformedUuid => false,
            },
        },
{
    match d.get(key) {
        Some(Bson::String(s)) => Ok(s.clone()),
        Some(_) => Err(FieldFault::WrongType),
        None => Err(FieldFault::Missing),
    }
}

/// Relies on bson::Document::get, the Bson::Double variant and f64::to_bits:
/// the IEEE 754 bit pattern of the stored 64-bit float comes back exactly
/// when the field holds one.
#[verifier::external_body]
pub(crate) fn doc_get_double_bits(d: &Document, key: &str) -> (r: Result<u64, FieldFault>)
    ensures
        match r {
            Ok(v) => doc_model(*d).contains_key(key@) && doc_model(*d)[key@] == BsonModel::Double(
                v,
            ),
            Err(f) => match f {
                FieldFault::Missing => !doc_model(*d).contains_key(key@),
                FieldFault::WrongType => doc_model(*d).contains_key(key@) && !(doc_model(
                    *d,
                )[key@] is Double),
                FieldFault::MalformedUuid => false,
            },
        },
{
    match d.get(key) {
        Some(Bson::Double(x)) => Ok(x.to_bits()),
        Some(_) => Err(FieldFault::WrongType),
        None => Err(FieldFault::Missing),
    }
}

/// Relies on bson::Document::get, the Bson::DateTime variant and
/// bson::DateTime::timestamp_millis: the stored instant comes back as
/// milliseconds since the Unix epoch exactly when the field holds one.
#[verifier::external_body]
pub(crate) fn doc_get_datetime_ms(d: &Document, key: &str) -> (r: Result<i64, FieldFault>)
    ensures
        match r {
            Ok(v) => doc_model(*d).contains_key(key@) && doc_model(*d)[key@]
                == BsonModel::DateTime(v),
            Err(f) => match f {
                FieldFault::Missing => !doc_model(*d).contains_key(key@),
                FieldFault::WrongType => doc_model(*d).contains_key(key@) && !(doc_model(
                    *d,
                )[key@] is DateTime),
                FieldFault::MalformedUuid => false,
            },
        },
{
    match d.get(key) {
        Some(Bson::DateTime(t)) => Ok(t.timestamp_millis()),
        Some(_) => Err(FieldFault::WrongType),
        None => Err(FieldFault::Missing),
    }
}

/// Relies on bson::Document::get, the Bson::Binary variant and
/// bson::Binary::to_uuid: the sixteen stored bytes come back as the 128-bit
/// integer they spell in big-endian order exactly when the field holds
/// binary data of the standard UUID subtype; any other binary data is
/// malformed.
#[verifier::external_body]
pub(crate) fn doc_get_uuid(d: &Document, key: &str) -> (r: Result<u128, FieldFault>)
    ensures
        match r {
            Ok(v) => doc_model(*d).contains_key(key@) && doc_model(*d)[key@] == BsonModel::Uuid(
                v,
            ),
            Err(f) => match f {
                FieldFault::Missing => !doc_model(*d).contains_key(key@),
                FieldFault::WrongType => doc_model(*d).contains_key(key@) && !(doc_model(
                    *d,
                )[key@] is Uuid) && !(doc_model(*d)[key@] is BinaryOther),
                FieldFault::MalformedUuid => doc_model(*d).contains_key(key@) && doc_model(
                    *d,
                )[key@] is BinaryOther,
            },
        },
{
    match d.get(key) {
        Some(Bson::Binary(bin)) => match bin.to_uuid() {
            Ok(u) => Ok(u128::from_be_bytes(u.bytes())),
            Err(_) => Err(FieldFault::MalformedUuid),
        },
        Some(_) => Err(FieldFault::WrongType),
        None => Err(FieldFault::Missing),
    }
}

/// Relies on bson::Document::get and the Bson::Document variant: a borrow of
/// the embedded document comes back exactly when the field holds one.
#[verifier::external_body]
pub(crate) fn doc_get_doc<'a>(d: &'a Document, key: &str) -> (r: Result<&'a Document, FieldFault>)
    ensures
        match r {
            Ok(sub) => doc_model(*d).contains_key(key@) && doc_model(*d)[key@] == BsonModel::Doc(
                doc_model(*sub),
            ),
            Err(f) => match f {
                FieldFault::Missing => !doc_model(*d).contains_key(key@),
                FieldFault::WrongType => doc_model(*d).contains_key(key@) && !(doc_model(
                    *d,
                )[key@] is Doc),
                FieldFault::MalformedUuid => false,
            },
        },
{
    match d.get(key) {
        Some(Bson::Document(sub)) => Ok(sub),
        Some(_) => Err(FieldFault::WrongType),
        None => Err(FieldFault::Missing),
    }
}

/// Relies on bson::Document::get and the Bson::Array variant: a borrow of
/// the stored array comes back exactly when the field holds one.
#[verifier::external_body]
pub(crate) fn doc_get_array<'a>(d: &'a Document, key: &str) -> (r: Result<
    &'a Vec<Bson>,
    FieldFault,
>)
    ensures
        match r {
            Ok(a) => doc_model(*d).contains_key(key@) && doc_model(*d)[key@] == BsonModel::Arr(
                a@.map_values(|b: Bson| bson_model(b)),
            ),
            Err(f) => match f {
                FieldFault::Missing => !doc_model(*d).contains_key(key@),
                FieldFault::WrongType => doc_model(*d).contains_key(key@) && !(doc_model(
                    *d,
                )[key@] is Arr),
                FieldFault::MalformedUuid => false,
            },
        },
{
    match d.get(key) {
        Some(Bson::Array(a)) => Ok(a),
        Some(_) => Err(FieldFault::WrongType),
        None => Err(FieldFault::Missing),
    }
}

/// Relies on bson::Document::get: a borrow of the stored value comes back
/// exactly when the field is present.
#[verifier::external_body]
pub(crate) fn doc_get_bson<'a>(d: &'a Document, key: &str) -> (r: Option<&'a Bson>)
    ensures
        match r {
            Some(b) => doc_model(*d).contains_key(key@) && bson_model(*b) == doc_model(*d)[key@],
            None => !doc_model(*d).contains_key(key@),
        },
{
    d.get(key)
}

/// Relies on bson::Bson::element_type: the tag of the stored kind, folded
/// to the kinds this codec names. Binary data of any subtype folds to
/// `Binary` — the tag does not show the subtype — and every kind the codec
/// never writes folds to `Other`.
#[verifier::external_body]
pub(crate) fn bson_kind(b: &Bson) -> (k: FieldKind)
    ensures
        k == kind_of(bson_model(*b)),
{
    match b.element_type() {
        bson::spec::ElementType::Int64 => FieldKind::Int64,
        bson::spec::ElementType::String => FieldKind::Str,
        bson::spec::ElementType::Double => FieldKind::Double,
        bson::spec::ElementType::DateTime => FieldKind::DateTime,
        bson::spec::ElementType::Binary => FieldKind::Binary,
        bson::spec::ElementType::EmbeddedDocument => FieldKind::Doc,
        bson::spec::ElementType::Array => FieldKind::Array,
        _ => FieldKind::Other,
    }
}

/// Relies on bson::Bson::as_document: a borrow of the embedded document
/// comes back exactly when the value is one.
#[verifier::external_body]
pub(crate) fn bson_as_doc(b: &Bson) -> (r: Option<&Document>)
    ensures
        match r {
            Some(sub) => bson_model(*b) == BsonModel::Doc(doc_model(*sub)),
            None => !(bson_model(*b) is Doc),
        },
{
    b.as_document()
}

/// The kind of one stored value, as error reports name it.
pub open spec fn kind_of(v: BsonModel) -> FieldKind {
    match v {
        BsonModel::Int64(_) => FieldKind::Int64,
        BsonModel::Str(_) => FieldKind::Str,
        BsonModel::Double(_) => FieldKind::Double,
        BsonModel::DateTime(_) => FieldKind::DateTime,
        BsonModel::Uuid(_) => FieldKind::Binary,
        BsonModel::BinaryOther => FieldKind::Binary,
        BsonModel::Doc(_) => FieldKind::Doc,
        BsonModel::Arr(_) => FieldKind::Array,
        BsonModel::Other => FieldKind::Other,
    }
}

/// What reading one field of a document yields at the mathematical level:
/// the stored value when it has the expected kind, and the exact fault
/// otherwise.
pub open spec fn field_i64(m: Map<Seq<char>, BsonModel>, name: Seq<char>) -> Result<i64, ErrView> {
    if !m.contains_key(name) {
        Err(ErrView::MissingField { field: name })
    } else {
        match m[name] {
            BsonModel::Int64(v) => Ok(v),
            _ => Err(
                ErrView::TypeMismatch {
                    field: name,
                    expected: FieldKind::Int64,
                    actual: kind_of(m[name]),
                },
            ),
        }
    }
}

pub open spec fn field_str(m: Map<Seq<char>, BsonModel>, name: Seq<char>) -> Result<
    Seq<char>,
    ErrView,
> {
    if !m.contains_key(name) {
        Err(ErrView::MissingField { field: name })
    } else {
        match m[name] {
            BsonModel::Str(s) => Ok(s),
            _ => Err(
                ErrView::TypeMismatch {
                    field: name,
                    expected: FieldKind::Str,
                    actual: kind_of(m[name]),
                },
            ),
        }
    }
}

pub open spec fn field_double_bits(m: Map<Seq<char>, BsonModel>, name: Seq<char>) -> Result<
    u64,
    ErrView,
> {
    if !m.contains_key(name) {
        Err(ErrView::MissingField { field: name })
    } else {
        match m[name] {
            BsonModel::Double(bits) => Ok(bits),
            _ => Err(
                ErrView::TypeMismatch {
                    field: name,
                    expected: FieldKind::Double,
                    actual: kind_of(m[name]),
                },
            ),
        }
    }
}

pub open spec fn field_datetime_ms(m: Map<Seq<char>, BsonModel>, name: Seq<char>) -> Result<
    i64,
    ErrView,
> {
    if !m.contains_key(name) {
        Err(ErrView::MissingField { field: name })
    } else {
        match m[name] {
            BsonModel::DateTime(ms) => Ok(ms),
            _ => Err(
                ErrView::TypeMismatch {
                    field: name,
                    expected: FieldKind::DateTime,
                    actual: kind_of(m[name]),
                },
            ),
        }
    }
}

pub open spec fn field_uuid(m: Map<Seq<char>, BsonModel>, name: Seq<char>) -> Result<
    u128,
    ErrView,
> {
    if !m.contains_key(name) {
        Err(ErrView::MissingField { field: name })
    } else {
        match m[name] {
            BsonModel::Uuid(v) => Ok(v),
            BsonModel::BinaryOther => Err(ErrView::MalformedIdentifier { field: name }),
            _ => Err(
                ErrView::TypeMismatch {
                    field: name,
                    expected: FieldKind::UuidBinary,
                    actual: kind_of(m[name]),
                },
            ),
        }
    }
}

pub open spec fn field_doc(m: Map<Seq<char>, BsonModel>, name: Seq<char>) -> Result<
    Map<Seq<char>, BsonModel>,
    ErrView,
> {
    if !m.contains_key(name) {
        Err(ErrView::MissingField { field: name })
    } else {
        match m[name] {
            BsonModel::Doc(sub) => Ok(sub),
            _ => Err(
                ErrView::TypeMismatch {
                    field: name,
                    expected: FieldKind::Doc,
                    actual: kind_of(m[name]),
                },
            ),
        }
    }
}

pub open spec fn field_arr(m: Map<Seq<char>, BsonModel>, name: Seq<char>) -> Result<
    Seq<BsonModel>,
    ErrView,
> {
    if !m.contains_key(name) {
        Err(ErrView::MissingField { field: name })
    } else {
        match m[name] {
            BsonModel::Arr(items) => Ok(items),
            _ => Err(
                ErrView::TypeMismatch {
                    field: name,
                    expected: FieldKind::Array,
                    actual: kind_of(m[name]),
                },
            ),
        }
    }
}

/// The error that a fault on the named field of a document with the given
/// contents denotes, given the kind the decoder expected there.
pub open spec fn fault_view(
    f: FieldFault,
    m: Map<Seq<char>, BsonModel>,
    name: Seq<char>,
    expected: FieldKind,
) -> ErrView {
    match f {
        FieldFault::Missing => ErrView::MissingField { field: name },
        FieldFault::WrongType => ErrView::TypeMismatch {
            field: name,
            expected,
            actual: kind_of(m[name]),
        },
        FieldFault::MalformedUuid => ErrView::MalformedIdentifier { field: name },
    }
}

/// Attaches the field's name, the expected kind and the kind found in the
/// document to a probe fault.
pub(crate) fn field_fault_error(
    f: FieldFault,
    d: &Document,
    name: &str,
    expected: FieldKind,
) -> (e: DecodeError)
    requires
        (f is WrongType ==> doc_model(*d).contains_key(name@)),
    ensures
        e@ == fault_view(f, doc_model(*d), name@, expected),
{
    let field = String::from_str(name);
    match f {
        FieldFault::Missing => DecodeError::MissingField { field },
        FieldFault::WrongType => {
            let actual = match doc_get_bson(d, name) {
                Some(b) => bson_kind(b),
                // A wrong-type fault implies the field is present.
                None => FieldKind::Other,
            };
            DecodeError::TypeMismatch { field, expected, actual }
        },
        FieldFault::MalformedUuid => DecodeError::MalformedIdentifier { field },
    }
}

} // verus!
