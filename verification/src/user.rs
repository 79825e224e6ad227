use vstd::prelude::*;
use vstd::string::*;
use crate::document::{
    bson_as_doc, doc_get_array, doc_get_doc, doc_get_double_bits, doc_get_i64, doc_get_str,
    doc_insert_doc, doc_insert_docs, doc_insert_double_bits, doc_insert_i64, doc_insert_str,
    doc_model, doc_new, field_arr, field_doc, field_double_bits, field_fault_error, field_i64,
    field_str, BsonModel,
};
use crate::error::{DecodeError, ErrView, FieldKind};
use bson::Bson;
use bson::Document;

verus! {

/// One language a user speaks, with the confidence score the language
/// service reported for it. The score is a 64-bit float on the wire; it is
/// held here by its IEEE 754 bit pattern, which the codec stores and
/// reconstructs bit for bit.
#[derive(Clone, Debug, PartialEq, Eq)]
pub struct LanguageScore {
    pub name: String,
    pub value_bits: u64,
}

/// The mathematical value of a language and its score.
pub struct LanguageView {
    pub name: Seq<char>,
    pub value_bits: u64,
}

impl View for LanguageScore {
    type V = LanguageView;

    open spec fn view(&self) -> LanguageView {
        LanguageView { name: self.name@, value_bits: self.value_bits }
    }
}

/// The embedded document a language pair encodes to: its name and its
/// score under the two fixed field names.
pub open spec fn spec_encode_language(l: LanguageView) -> Map<Seq<char>, BsonModel> {
    Map::empty().insert("name"@, BsonModel::Str(l.name)).insert(
        "value"@,
        BsonModel::Double(l.value_bits),
    )
}

/// The language pair an embedded document decodes to, or the exact fault.
/// The score is read from its own `value` field, never from `name`.
pub open spec fn spec_decode_language(m: Map<Seq<char>, BsonModel>) -> Result<
    LanguageView,
    ErrView,
> {
    match field_str(m, "name"@) {
        Err(e) => Err(e),
        Ok(name) => match field_double_bits(m, "value"@) {
            Err(e) => Err(e),
            Ok(value_bits) => Ok(LanguageView { name, value_bits }),
        },
    }
}

impl LanguageScore {
    pub fn encode(&self) -> (d: Document)
        ensures
            doc_model(d) == spec_encode_language(self@),
    {
        let mut d = doc_new();
        doc_insert_str(&mut d, "name", self.name.as_str());
        doc_insert_double_bits(&mut d, "value", self.value_bits);
        d
    }

    pub fn decode(d: &Document) -> (r: Result<LanguageScore, DecodeError>)
        ensures
            match r {
                Ok(l) => spec_decode_language(doc_model(*d)) == Ok::<LanguageView, ErrView>(l@),
                Err(e) => spec_decode_language(doc_model(*d)) == Err::<LanguageView, ErrView>(e@),
            },
    {
        let name = match doc_get_str(d, "name") {
            Ok(v) => v,
            Err(f) => {
                return Err(field_fault_error(f, d, "name", FieldKind::Str));
            },
        };
        let value_bits = match doc_get_double_bits(d, "value") {
            Ok(v) => v,
            Err(f) => {
                return Err(field_fault_error(f, d, "value", FieldKind::Double));
            },
        };
        Ok(LanguageScore { name, value_bits })
    }
}

/// The two field names of an embedded language document denote two
/// distinct fields.
pub(crate) proof fn lemma_language_keys_distinct()
    ensures
        "name"@ != "value"@,
{
    reveal_strlit("name");
    reveal_strlit("value");
    assert("name"@.len() == 4);
    assert("value"@.len() == 5);
}

/// Round trip: decoding the embedded document a language pair encodes to
/// yields that same pair, score bits included, for every pair.
pub proof fn lemma_language_round_trip(l: LanguageView)
    ensures
        spec_decode_language(spec_encode_language(l)) == Ok::<LanguageView, ErrView>(l),
{
    lemma_language_keys_distinct();
}

/// Missing field: removing either required field from the embedded document
/// a language pair encodes to makes decoding fail with `MissingField`
/// naming exactly that field.
pub proof fn lemma_language_missing_field(l: LanguageView, name: Seq<char>)
    requires
        name == "name"@ || name == "value"@,
    ensures
        spec_decode_language(spec_encode_language(l).remove(name)) == Err::<LanguageView, ErrView>(
            ErrView::MissingField { field: name },
        ),
{
    lemma_language_keys_distinct();
}

/// The language list a stored array decodes to: each element must be an
/// embedded document holding a valid language pair, and the first element
/// that is not fails the whole decode. An element of another stored kind is
/// a type mismatch on the `spoken_languages` field.
pub open spec fn spec_decode_language_list(items: Seq<BsonModel>) -> Result<
    Seq<LanguageView>,
    ErrView,
>
    decreases items.len(),
{
    if items.len() == 0 {
        Ok(Seq::empty())
    } else {
        match items[0] {
            BsonModel::Doc(m) => match spec_decode_language(m) {
                Ok(l) => match spec_decode_language_list(items.drop_first()) {
                    Ok(rest) => Ok(seq![l] + rest),
                    Err(e) => Err(e),
                },
                Err(e) => Err(e),
            },
            _ => Err(
                ErrView::TypeMismatch {
                    field: "spoken_languages"@,
                    expected: FieldKind::Doc,
                    actual: crate::document::kind_of(items[0]),
                },
            ),
        }
    }
}

/// A decoded prefix carries through the whole list: when the first `k`
/// elements are embedded documents that decode to `acc`, the list decodes
/// as `acc` followed by whatever the remainder decodes to, or fails exactly
/// as the remainder fails.
proof fn lemma_language_list_prefix(items: Seq<BsonModel>, k: int, acc: Seq<LanguageView>)
    requires
        0 <= k <= items.len(),
        acc.len() == k,
        forall|j: int|
            0 <= j < k ==> (#[trigger] items[j]) is Doc && spec_decode_language(items[j]->Doc_0)
                == Ok::<LanguageView, ErrView>(acc[j]),
    ensures
        spec_decode_language_list(items) == (match spec_decode_language_list(items.skip(k)) {
            Ok(rest) => Ok::<Seq<LanguageView>, ErrView>(acc + rest),
            Err(e) => Err::<Seq<LanguageView>, ErrView>(e),
        }),
    decreases k,
{
    if k == 0 {
        assert(items.skip(0) =~= items);
        match spec_decode_language_list(items) {
            Ok(rest) => {
                assert(acc + rest =~= rest);
            },
            Err(e) => {},
        }
    } else {
        lemma_language_list_prefix(items, k - 1, acc.take(k - 1));
        let tail = items.skip(k - 1);
        assert(tail[0] == items[k - 1]);
        assert(tail.drop_first() =~= items.skip(k));
        match spec_decode_language_list(items.skip(k)) {
            Ok(rest) => {
                assert(spec_decode_language_list(tail) == Ok::<Seq<LanguageView>, ErrView>(
                    seq![acc[k - 1]] + rest,
                ));
                assert(acc.take(k - 1) + (seq![acc[k - 1]] + rest) =~= acc + rest);
            },
            Err(e) => {},
        }
    }
}

/// Round trip for language lists: decoding the array that a language list
/// encodes to yields that same list, in the same order.
proof fn lemma_language_list_round_trip(ls: Seq<LanguageView>)
    ensures
        spec_decode_language_list(
            ls.map_values(|l: LanguageView| BsonModel::Doc(spec_encode_language(l))),
        ) == Ok::<Seq<LanguageView>, ErrView>(ls),
    decreases ls.len(),
{
    let ms = ls.map_values(|l: LanguageView| BsonModel::Doc(spec_encode_language(l)));
    if ls.len() == 0 {
        assert(ls =~= Seq::<LanguageView>::empty());
    } else {
        lemma_language_round_trip(ls[0]);
        assert(ms.drop_first() =~= ls.drop_first().map_values(
            |l: LanguageView| BsonModel::Doc(spec_encode_language(l)),
        ));
        lemma_language_list_round_trip(ls.drop_first());
        assert(seq![ls[0]] + ls.drop_first() =~= ls);
    }
}

/// One user's persisted profile: the user's platform identifier, the
/// language preferred for replies, every language the user speaks — an
/// ordered list that may be empty and may repeat the preferred language —
/// and a contact address the codec does not validate.
#[derive(Clone, Debug, PartialEq, Eq)]
#[allow(non_camel_case_types)]
pub struct user {
    pub user_id: i64,
    pub preferred_language: LanguageScore,
    pub spoken_languages: Vec<LanguageScore>,
    pub email: String,
}

/// The mathematical value of a user profile.
pub struct UserView {
    pub user_id: i64,
    pub preferred_language: LanguageView,
    pub spoken_languages: Seq<LanguageView>,
    pub email: Seq<char>,
}

impl View for user {
    type V = UserView;

    open spec fn view(&self) -> UserView {
        UserView {
            user_id: self.user_id,
            preferred_language: self.preferred_language@,
            spoken_languages: self.spoken_languages@.map_values(|l: LanguageScore| l@),
            email: self.email@,
        }
    }
}

/// The document a user profile encodes to: the identifier, the preferred
/// language as an embedded document, the spoken languages as an array of
/// embedded documents in order — an empty list is stored as an empty array,
/// never left out — and the address as a string.
pub open spec fn spec_encode_user(v: UserView) -> Map<Seq<char>, BsonModel> {
    Map::empty().insert("user_id"@, BsonModel::Int64(v.user_id)).insert(
        "preferred_language"@,
        BsonModel::Doc(spec_encode_language(v.preferred_language)),
    ).insert(
        "spoken_languages"@,
        BsonModel::Arr(
            v.spoken_languages.map_values(|l: LanguageView| BsonModel::Doc(spec_encode_language(l))),
        ),
    ).insert("email"@, BsonModel::Str(v.email))
}

/// The user profile a document decodes to, or the exact fault, fields
/// checked in the order of the stored layout.
pub open spec fn spec_decode_user(m: Map<Seq<char>, BsonModel>) -> Result<UserView, ErrView> {
    match field_i64(m, "user_id"@) {
        Err(e) => Err(e),
        Ok(user_id) => match field_doc(m, "preferred_language"@) {
            Err(e) => Err(e),
            Ok(plm) => match spec_decode_language(plm) {
                Err(e) => Err(e),
                Ok(preferred_language) => match field_arr(m, "spoken_languages"@) {
                    Err(e) => Err(e),
                    Ok(items) => match spec_decode_language_list(items) {
                        Err(e) => Err(e),
                        Ok(spoken_languages) => match field_str(m, "email"@) {
                            Err(e) => Err(e),
                            Ok(email) => Ok(
                                UserView { user_id, preferred_language, spoken_languages, email },
                            ),
                        },
                    },
                },
            },
        },
    }
}

impl user {
    pub fn encode(&self) -> (d: Document)
        ensures
            doc_model(d) == spec_encode_user(self@),
    {
        let mut d = doc_new();
        doc_insert_i64(&mut d, "user_id", self.user_id);
        let pl = self.preferred_language.encode();
        doc_insert_doc(&mut d, "preferred_language", pl);
        let mut subs: Vec<Document> = Vec::new();
        let mut i: usize = 0;
        while i < self.spoken_languages.len()
            invariant
                i <= self.spoken_languages.len(),
                subs@.len() == i as int,
                forall|j: int|
                    0 <= j < i ==> doc_model(#[trigger] subs@[j]) == spec_encode_language(
                        self.spoken_languages@[j]@,
                    ),
            decreases self.spoken_languages.len() - i,
        {
            subs.push(self.spoken_languages[i].encode());
            i += 1;
        }
        proof {
            assert(subs@.map_values(|sub: Document| BsonModel::Doc(doc_model(sub)))
                =~= self@.spoken_languages.map_values(
                |l: LanguageView| BsonModel::Doc(spec_encode_language(l)),
            ));
        }
        doc_insert_docs(&mut d, "spoken_languages", subs);
        doc_insert_str(&mut d, "email", self.email.as_str());
        d
    }

    pub fn decode(d: &Document) -> (r: Result<user, DecodeError>)
        ensures
            match r {
                Ok(u) => spec_decode_user(doc_model(*d)) == Ok::<UserView, ErrView>(u@),
                Err(e) => spec_decode_user(doc_model(*d)) == Err::<UserView, ErrView>(e@),
            },
    {
        let user_id = match doc_get_i64(d, "user_id") {
            Ok(v) => v,
            Err(f) => {
                return Err(field_fault_error(f, d, "user_id", FieldKind::Int64));
            },
        };
        let pl_doc = match doc_get_doc(d, "preferred_language") {
            Ok(sub) => sub,
            Err(f) => {
                return Err(field_fault_error(f, d, "preferred_language", FieldKind::Doc));
            },
        };
        let preferred_language = match LanguageScore::decode(pl_doc) {
            Ok(l) => l,
            Err(e) => {
                return Err(e);
            },
        };
        let arr = match doc_get_array(d, "spoken_languages") {
            Ok(a) => a,
            Err(f) => {
                return Err(field_fault_error(f, d, "spoken_languages", FieldKind::Array));
            },
        };
        let ghost items: Seq<BsonModel> = arr@.map_values(|b: Bson| crate::document::bson_model(b));
        let mut spoken_languages: Vec<LanguageScore> = Vec::new();
        let mut i: usize = 0;
        while i < arr.len()
            invariant
                i <= arr.len(),
                items == arr@.map_values(|b: Bson| crate::document::bson_model(b)),
                (field_i64(doc_model(*d), "user_id"@) == Ok::<i64, ErrView>(user_id)),
                (field_doc(doc_model(*d), "preferred_language"@) == Ok::<
                    Map<Seq<char>, BsonModel>,
                    ErrView,
                >(doc_model(*pl_doc))),
                (spec_decode_language(doc_model(*pl_doc)) == Ok::<LanguageView, ErrView>(
                    preferred_language@,
                )),
                (field_arr(doc_model(*d), "spoken_languages"@) == Ok::<Seq<BsonModel>, ErrView>(
                    items,
                )),
                spoken_languages@.len() == i as int,
                forall|j: int|
                    0 <= j < i ==> (#[trigger] items[j]) is Doc && spec_decode_language(
                        items[j]->Doc_0,
                    ) == Ok::<LanguageView, ErrView>(spoken_languages@[j]@),
            decreases arr.len() - i,
        {
            let b = &arr[i];
            match bson_as_doc(b) {
                Some(sub) => {
                    match LanguageScore::decode(sub) {
                        Ok(l) => {
                            spoken_languages.push(l);
                        },
                        Err(e) => {
                            proof {
                                lemma_language_list_prefix(
                                    items,
                                    i as int,
                                    spoken_languages@.map_values(|l: LanguageScore| l@),
                                );
                                assert(items.skip(i as int)[0] == items[i as int]);
                                assert(items.skip(i as int).len() > 0);
                            }
                            return Err(e);
                        },
                    }
                },
                None => {
                    proof {
                        lemma_language_list_prefix(
                            items,
                            i as int,
                            spoken_languages@.map_values(|l: LanguageScore| l@),
                        );
                        assert(items.skip(i as int)[0] == items[i as int]);
                        assert(items.skip(i as int).len() > 0);
                    }
                    let actual = crate::document::bson_kind(b);
                    return Err(
                        DecodeError::TypeMismatch {
                            field: String::from_str("spoken_languages"),
                            expected: FieldKind::Doc,
                            actual,
                        },
                    );
                },
            }
            i += 1;
        }
        let email = match doc_get_str(d, "email") {
            Ok(v) => v,
            Err(f) => {
                proof {
                    lemma_language_list_prefix(
                        items,
                        items.len() as int,
                        spoken_languages@.map_values(|l: LanguageScore| l@),
                    );
                    assert(items.skip(items.len() as int) =~= Seq::<BsonModel>::empty());
                    assert(spoken_languages@.map_values(|l: LanguageScore| l@)
                        + Seq::<LanguageView>::empty() =~= spoken_languages@.map_values(
                        |l: LanguageScore| l@,
                    ));
                }
                return Err(field_fault_error(f, d, "email", FieldKind::Str));
            },
        };
        proof {
            lemma_language_list_prefix(
                items,
                items.len() as int,
                spoken_languages@.map_values(|l: LanguageScore| l@),
            );
            assert(items.skip(items.len() as int) =~= Seq::<BsonModel>::empty());
            assert(spoken_languages@.map_values(|l: LanguageScore| l@)
                + Seq::<LanguageView>::empty() =~= spoken_languages@.map_values(
                |l: LanguageScore| l@,
            ));
        }
        Ok(user { user_id, preferred_language, spoken_languages, email })
    }
}

/// The field names of a stored user profile.
pub open spec fn user_field_names() -> Set<Seq<char>> {
    set!["user_id"@, "preferred_language"@, "spoken_languages"@, "email"@]
}

/// The four field names of a stored user profile denote four distinct
/// fields.
pub(crate) proof fn lemma_user_keys_distinct()
    ensures
        "user_id"@ != "preferred_language"@,
        "user_id"@ != "spoken_languages"@,
        "user_id"@ != "email"@,
        "preferred_language"@ != "spoken_languages"@,
        "preferred_language"@ != "email"@,
        "spoken_languages"@ != "email"@,
{
    reveal_strlit("user_id");
    reveal_strlit("preferred_language");
    reveal_strlit("spoken_languages");
    reveal_strlit("email");
    assert("user_id"@.len() == 7);
    assert("preferred_language"@.len() == 18);
    assert("spoken_languages"@.len() == 16);
    assert("email"@.len() == 5);
}

/// Round trip: decoding the document a user profile encodes to yields that
/// same profile — identifier, both language fields with their exact score
/// bits and order, and address — for every profile. An empty spoken list
/// comes back as an empty list, not as a missing field.
pub proof fn lemma_user_round_trip(v: UserView)
    ensures
        spec_decode_user(spec_encode_user(v)) == Ok::<UserView, ErrView>(v),
{
    lemma_user_keys_distinct();
    lemma_language_round_trip(v.preferred_language);
    lemma_language_list_round_trip(v.spoken_languages);
}

/// Missing field: removing any single required field from the document a
/// user profile encodes to makes decoding fail with `MissingField` naming
/// exactly that field.
pub proof fn lemma_user_missing_field(v: UserView, name: Seq<char>)
    requires
        user_field_names().contains(name),
    ensures
        spec_decode_user(spec_encode_user(v).remove(name)) == Err::<UserView, ErrView>(
            ErrView::MissingField { field: name },
        ),
{
    lemma_user_keys_distinct();
    lemma_language_round_trip(v.preferred_language);
    lemma_language_list_round_trip(v.spoken_languages);
}

} // verus!
