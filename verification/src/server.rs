use vstd::prelude::*;
use vstd::string::*;
use crate::document::{
    bson_as_doc, doc_get_array, doc_get_i64, doc_insert_docs, doc_insert_i64, doc_model, doc_new,
    field_arr, field_fault_error, field_i64, BsonModel,
};
use crate::error::{DecodeError, ErrView, FieldKind};
use crate::status::ChannelType;
use bson::Bson;
use bson::Document;

verus! {

/// The parameters of one configured channel, embedded in a server's
/// document: two 64-bit identifiers and the channel's type, stored as its
/// table code.
#[derive(Clone, Copy, Debug, PartialEq, Eq, Structural)]
pub struct ChannelPar {
    pub channel_id: i64,
    pub guild_id: i64,
    pub channel_type: ChannelType,
}

impl ChannelPar {
    /// The embedded document a channel's parameters encode to.
    pub open spec fn spec_encode(self) -> Map<Seq<char>, BsonModel> {
        Map::empty().insert("channel_id"@, BsonModel::Int64(self.channel_id)).insert(
            "guild_id"@,
            BsonModel::Int64(self.guild_id),
        ).insert("channel_type"@, BsonModel::Int64(self.channel_type.spec_code()))
    }

    /// The channel parameters an embedded document decodes to, or the exact
    /// fault, fields checked in the order of the stored layout.
    pub open spec fn spec_decode(m: Map<Seq<char>, BsonModel>) -> Result<ChannelPar, ErrView> {
        match field_i64(m, "channel_id"@) {
            Err(e) => Err(e),
            Ok(channel_id) => match field_i64(m, "guild_id"@) {
                Err(e) => Err(e),
                Ok(guild_id) => match field_i64(m, "channel_type"@) {
                    Err(e) => Err(e),
                    Ok(code) => match ChannelType::spec_from_code(code) {
                        Err(e) => Err(e),
                        Ok(channel_type) => Ok(ChannelPar { channel_id, guild_id, channel_type }),
                    },
                },
            },
        }
    }

    pub fn encode(&self) -> (d: Document)
        ensures
            doc_model(d) == self.spec_encode(),
    {
        let mut d = doc_new();
        doc_insert_i64(&mut d, "channel_id", self.channel_id);
        doc_insert_i64(&mut d, "guild_id", self.guild_id);
        doc_insert_i64(&mut d, "channel_type", self.channel_type.code());
        d
    }

    pub fn decode(d: &Document) -> (r: Result<ChannelPar, DecodeError>)
        ensures
            crate::error::view_result(r) == Self::spec_decode(doc_model(*d)),
    {
        let channel_id = match doc_get_i64(d, "channel_id") {
            Ok(v) => v,
            Err(f) => {
                return Err(field_fault_error(f, d, "channel_id", FieldKind::Int64));
            },
        };
        let guild_id = match doc_get_i64(d, "guild_id") {
            Ok(v) => v,
            Err(f) => {
                return Err(field_fault_error(f, d, "guild_id", FieldKind::Int64));
            },
        };
        let code = match doc_get_i64(d, "channel_type") {
            Ok(v) => v,
            Err(f) => {
                return Err(field_fault_error(f, d, "channel_type", FieldKind::Int64));
            },
        };
        let channel_type = match ChannelType::from_code(code) {
            Ok(c) => c,
            Err(e) => {
                return Err(e);
            },
        };
        Ok(ChannelPar { channel_id, guild_id, channel_type })
    }
}

/// The field names of an embedded channel document.
pub open spec fn channel_field_names() -> Set<Seq<char>> {
    set!["channel_id"@, "guild_id"@, "channel_type"@]
}

/// The three field names of an embedded channel document denote three
/// distinct fields.
pub(crate) proof fn lemma_channel_keys_distinct()
    ensures
        "channel_id"@ != "guild_id"@,
        "channel_id"@ != "channel_type"@,
        "guild_id"@ != "channel_type"@,
{
    reveal_strlit("channel_id");
    reveal_strlit("guild_id");
    reveal_strlit("channel_type");
    assert("channel_id"@.len() == 10);
    assert("guild_id"@.len() == 8);
    assert("channel_type"@.len() == 12);
}

/// Round trip: decoding the embedded document that channel parameters
/// encode to yields those same parameters, for every value.
pub proof fn lemma_channel_par_round_trip(c: ChannelPar)
    ensures
        ChannelPar::spec_decode(c.spec_encode()) == Ok::<ChannelPar, ErrView>(c),
{
    lemma_channel_keys_distinct();
    crate::status::lemma_channel_type_round_trip(c.channel_type);
}

/// Missing field: removing any single required field from the embedded
/// document that channel parameters encode to makes decoding fail with
/// `MissingField` naming exactly that field.
pub proof fn lemma_channel_par_missing_field(c: ChannelPar, name: Seq<char>)
    requires
        channel_field_names().contains(name),
    ensures
        ChannelPar::spec_decode(c.spec_encode().remove(name)) == Err::<ChannelPar, ErrView>(
            ErrView::MissingField { field: name },
        ),
{
    lemma_channel_keys_distinct();
}

/// The channel list a stored array decodes to: each element must be an
/// embedded document holding valid channel parameters, and the first
/// element that is not fails the whole decode. An element of another stored
/// kind is a type mismatch on the `channel_vec` field.
pub open spec fn spec_decode_channel_list(items: Seq<BsonModel>) -> Result<Seq<ChannelPar>, ErrView>
    decreases items.len(),
{
    if items.len() == 0 {
        Ok(Seq::empty())
    } else {
        match items[0] {
            BsonModel::Doc(m) => match ChannelPar::spec_decode(m) {
                Ok(c) => match spec_decode_channel_list(items.drop_first()) {
                    Ok(rest) => Ok(seq![c] + rest),
                    Err(e) => Err(e),
                },
                Err(e) => Err(e),
            },
            _ => Err(
                ErrView::TypeMismatch {
                    field: "channel_vec"@,
                    expected: FieldKind::Doc,
                    actual: crate::document::kind_of(items[0]),
                },
            ),
        }
    }
}

/// A decoded prefix carries through the whole list: when the first `k`
/// elements are embedded documents that decode to `acc`, the list decodes
/// as `acc` followed by whatever the remainder decodes to, or fails exactly
/// as the remainder fails.
proof fn lemma_channel_list_prefix(items: Seq<BsonModel>, k: int, acc: Seq<ChannelPar>)
    requires
        0 <= k <= items.len(),
        acc.len() == k,
        forall|j: int|
            0 <= j < k ==> (#[trigger] items[j]) is Doc && ChannelPar::spec_decode(
                items[j]->Doc_0,
            ) == Ok::<ChannelPar, ErrView>(acc[j]),
    ensures
        spec_decode_channel_list(items) == (match spec_decode_channel_list(items.skip(k)) {
            Ok(rest) => Ok::<Seq<ChannelPar>, ErrView>(acc + rest),
            Err(e) => Err::<Seq<ChannelPar>, ErrView>(e),
        }),
    decreases k,
{
    if k == 0 {
        assert(items.skip(0) =~= items);
        match spec_decode_channel_list(items) {
            Ok(rest) => {
                assert(acc + rest =~= rest);
            },
            Err(e) => {},
        }
    } else {
        lemma_channel_list_prefix(items, k - 1, acc.take(k - 1));
        let tail = items.skip(k - 1);
        assert(tail[0] == items[k - 1]);
        assert(tail.drop_first() =~= items.skip(k));
        match spec_decode_channel_list(items.skip(k)) {
            Ok(rest) => {
                assert(spec_decode_channel_list(tail) == Ok::<Seq<ChannelPar>, ErrView>(
                    seq![acc[k - 1]] + rest,
                ));
                assert(acc.take(k - 1) + (seq![acc[k - 1]] + rest) =~= acc + rest);
            },
            Err(e) => {},
        }
    }
}

/// Round trip for channel lists: decoding the array that a channel list
/// encodes to yields that same list, in the same order.
proof fn lemma_channel_list_round_trip(cs: Seq<ChannelPar>)
    ensures
        spec_decode_channel_list(cs.map_values(|c: ChannelPar| BsonModel::Doc(c.spec_encode())))
            == Ok::<Seq<ChannelPar>, ErrView>(cs),
    decreases cs.len(),
{
    let ms = cs.map_values(|c: ChannelPar| BsonModel::Doc(c.spec_encode()));
    if cs.len() == 0 {
        assert(cs =~= Seq::<ChannelPar>::empty());
    } else {
        lemma_channel_par_round_trip(cs[0]);
        assert(ms.drop_first() =~= cs.drop_first().map_values(
            |c: ChannelPar| BsonModel::Doc(c.spec_encode()),
        ));
        lemma_channel_list_round_trip(cs.drop_first());
        assert(seq![cs[0]] + cs.drop_first() =~= cs);
    }
}

/// A server's persisted configuration: its identifier, the channel that
/// greets newcomers, and the ordered list of configured channels. The list
/// keeps its stored order and may hold duplicate channel identifiers; both
/// are the caller's concern.
#[derive(Clone, Debug, PartialEq, Eq)]
#[allow(non_camel_case_types)]
pub struct server {
    pub server_id: i64,
    pub welcome_channel_id: i64,
    pub channel_vec: Vec<ChannelPar>,
}

/// The mathematical value of a server configuration: the same fields with
/// the channel list as a sequence.
pub struct ServerView {
    pub server_id: i64,
    pub welcome_channel_id: i64,
    pub channel_vec: Seq<ChannelPar>,
}

impl View for server {
    type V = ServerView;

    open spec fn view(&self) -> ServerView {
        ServerView {
            server_id: self.server_id,
            welcome_channel_id: self.welcome_channel_id,
            channel_vec: self.channel_vec@,
        }
    }
}

/// The document a server configuration encodes to: both identifiers, and
/// the channels as an array of embedded documents in order.
pub open spec fn spec_encode_server(v: ServerView) -> Map<Seq<char>, BsonModel> {
    Map::empty().insert("server_id"@, BsonModel::Int64(v.server_id)).insert(
        "welcome_channel_id"@,
        BsonModel::Int64(v.welcome_channel_id),
    ).insert(
        "channel_vec"@,
        BsonModel::Arr(v.channel_vec.map_values(|c: ChannelPar| BsonModel::Doc(c.spec_encode()))),
    )
}

/// The server configuration a document decodes to, or the exact fault,
/// fields checked in the order of the stored layout.
pub open spec fn spec_decode_server(m: Map<Seq<char>, BsonModel>) -> Result<ServerView, ErrView> {
    match field_i64(m, "server_id"@) {
        Err(e) => Err(e),
        Ok(server_id) => match field_i64(m, "welcome_channel_id"@) {
            Err(e) => Err(e),
            Ok(welcome_channel_id) => match field_arr(m, "channel_vec"@) {
                Err(e) => Err(e),
                Ok(items) => match spec_decode_channel_list(items) {
                    Err(e) => Err(e),
                    Ok(channel_vec) => Ok(ServerView { server_id, welcome_channel_id, channel_vec }),
                },
            },
        },
    }
}

impl server {
    pub fn encode(&self) -> (d: Document)
        ensures
            doc_model(d) == spec_encode_server(self@),
    {
        let mut d = doc_new();
        doc_insert_i64(&mut d, "server_id", self.server_id);
        doc_insert_i64(&mut d, "welcome_channel_id", self.welcome_channel_id);
        let mut subs: Vec<Document> = Vec::new();
        let mut i: usize = 0;
        while i < self.channel_vec.len()
            invariant
                i <= self.channel_vec.len(),
                subs@.len() == i as int,
                forall|j: int|
                    0 <= j < i ==> doc_model(#[trigger] subs@[j]) == self.channel_vec@[j].spec_encode(),
            decreases self.channel_vec.len() - i,
        {
            subs.push(self.channel_vec[i].encode());
            i += 1;
        }
        proof {
            assert(subs@.map_values(|sub: Document| BsonModel::Doc(doc_model(sub)))
                =~= self.channel_vec@.map_values(|c: ChannelPar| BsonModel::Doc(c.spec_encode())));
        }
        doc_insert_docs(&mut d, "channel_vec", subs);
        d
    }

    pub fn decode(d: &Document) -> (r: Result<server, DecodeError>)
        ensures
            match r {
                Ok(s) => spec_decode_server(doc_model(*d)) == Ok::<ServerView, ErrView>(s@),
                Err(e) => spec_decode_server(doc_model(*d)) == Err::<ServerView, ErrView>(e@),
            },
    {
        let server_id = match doc_get_i64(d, "server_id") {
            Ok(v) => v,
            Err(f) => {
                return Err(field_fault_error(f, d, "server_id", FieldKind::Int64));
            },
        };
        let welcome_channel_id = match doc_get_i64(d, "welcome_channel_id") {
            Ok(v) => v,
            Err(f) => {
                return Err(field_fault_error(f, d, "welcome_channel_id", FieldKind::Int64));
            },
        };
        let arr = match doc_get_array(d, "channel_vec") {
            Ok(a) => a,
            Err(f) => {
                return Err(field_fault_error(f, d, "channel_vec", FieldKind::Array));
            },
        };
        let ghost items: Seq<BsonModel> = arr@.map_values(|b: Bson| crate::document::bson_model(b));
        let mut channel_vec: Vec<ChannelPar> = Vec::new();
        let mut i: usize = 0;
        while i < arr.len()
            invariant
                i <= arr.len(),
                items == arr@.map_values(|b: Bson| crate::document::bson_model(b)),
                (field_i64(doc_model(*d), "server_id"@) == Ok::<i64, ErrView>(server_id)),
                (field_i64(doc_model(*d), "welcome_channel_id"@) == Ok::<i64, ErrView>(
                    welcome_channel_id,
                )),
                (field_arr(doc_model(*d), "channel_vec"@) == Ok::<Seq<BsonModel>, ErrView>(items)),
                channel_vec@.len() == i as int,
                forall|j: int|
                    0 <= j < i ==> (#[trigger] items[j]) is Doc && ChannelPar::spec_decode(
                        items[j]->Doc_0,
                    ) == Ok::<ChannelPar, ErrView>(channel_vec@[j]),
            decreases arr.len() - i,
        {
            let b = &arr[i];
            match bson_as_doc(b) {
                Some(sub) => {
                    match ChannelPar::decode(sub) {
                        Ok(c) => {
                            channel_vec.push(c);
                        },
                        Err(e) => {
                            proof {
                                lemma_channel_list_prefix(items, i as int, channel_vec@);
                                assert(items.skip(i as int)[0] == items[i as int]);
                                assert(items.skip(i as int).len() > 0);
                            }
                            return Err(e);
                        },
                    }
                },
                None => {
                    proof {
                        lemma_channel_list_prefix(items, i as int, channel_vec@);
                        assert(items.skip(i as int)[0] == items[i as int]);
                        assert(items.skip(i as int).len() > 0);
                    }
                    let actual = crate::document::bson_kind(b);
                    return Err(
                        DecodeError::TypeMismatch {
                            field: String::from_str("channel_vec"),
                            expected: FieldKind::Doc,
                            actual,
                        },
                    );
                },
            }
            i += 1;
        }
        proof {
            lemma_channel_list_prefix(items, items.len() as int, channel_vec@);
            assert(items.skip(items.len() as int) =~= Seq::<BsonModel>::empty());
            assert(channel_vec@ + Seq::<ChannelPar>::empty() =~= channel_vec@);
        }
        Ok(server { server_id, welcome_channel_id, channel_vec })
    }
}

/// The field names of a stored server configuration.
pub open spec fn server_field_names() -> Set<Seq<char>> {
    set!["server_id"@, "welcome_channel_id"@, "channel_vec"@]
}

/// The three field names of a stored server configuration denote three
/// distinct fields.
pub(crate) proof fn lemma_server_keys_distinct()
    ensures
        "server_id"@ != "welcome_channel_id"@,
        "server_id"@ != "channel_vec"@,
        "welcome_channel_id"@ != "channel_vec"@,
{
    reveal_strlit("server_id");
    reveal_strlit("welcome_channel_id");
    reveal_strlit("channel_vec");
    assert("server_id"@.len() == 9);
    assert("welcome_channel_id"@.len() == 18);
    assert("channel_vec"@.len() == 11);
}

/// Round trip: decoding the document a server configuration encodes to
/// yields that same configuration, with the channel list in the same order,
/// for every configuration.
pub proof fn lemma_server_round_trip(v: ServerView)
    ensures
        spec_decode_server(spec_encode_server(v)) == Ok::<ServerView, ErrView>(v),
{
    lemma_server_keys_distinct();
    lemma_channel_list_round_trip(v.channel_vec);
}

/// Missing field: removing any single required field from the document a
/// server configuration encodes to makes decoding fail with `MissingField`
/// naming exactly that field.
pub proof fn lemma_server_missing_field(v: ServerView, name: Seq<char>)
    requires
        server_field_names().contains(name),
    ensures
        spec_decode_server(spec_encode_server(v).remove(name)) == Err::<ServerView, ErrView>(
            ErrView::MissingField { field: name },
        ),
{
    lemma_server_keys_distinct();
    lemma_channel_list_round_trip(v.channel_vec);
}

} // verus!
