//! JSON values: the mathematical model, the owned tree that the rest of the
//! crate works on, and the boundary with the parser crate.

use crate::error::{Error, Failure};
use crate::scan::takeable;
use rustc_serialize::json::{Json, ParserError};
use vstd::prelude::*;
use vstd::utf8::{decode_utf8, encode_utf8};

verus! {

/// A JSON value as a mathematical tree.
///
/// A number keeps the form the document gave it: `U64` for an integer
/// written without a sign, `I64` for one written with a minus sign (`-0`
/// included), and `F64`, which holds the IEEE 754 bit pattern, for one with
/// a fraction or an exponent. An object is the sequence of its members.
pub enum JsonModel {
    Null,
    Boolean(bool),
    I64(i64),
    U64(u64),
    F64(u64),
    String(Seq<char>),
    Array(Seq<JsonModel>),
    Object(Seq<(Seq<char>, JsonModel)>),
}

/// The tree with the bits of every float forgotten: what a tree is apart from
/// the values of its numbers with a fraction or an exponent.
pub open spec fn blurred(tree: JsonModel) -> JsonModel
    decreases tree,
{
    match tree {
        JsonModel::F64(_) => JsonModel::F64(0),
        JsonModel::Array(items) => JsonModel::Array(
            Seq::new(
                items.len(),
                |i: int|
                    if 0 <= i < items.len() {
                        blurred(items[i])
                    } else {
                        JsonModel::Null
                    },
            ),
        ),
        JsonModel::Object(members) => JsonModel::Object(
            Seq::new(
                members.len(),
                |i: int|
                    if 0 <= i < members.len() {
                        (members[i].0, blurred(members[i].1))
                    } else {
                        (Seq::empty(), JsonModel::Null)
                    },
            ),
        ),
        other => other,
    }
}

/// The tree holds no number with a fraction or an exponent, at any depth.
pub open spec fn float_free(tree: JsonModel) -> bool
    decreases tree,
{
    match tree {
        JsonModel::F64(_) => false,
        JsonModel::Array(items) => forall|i: int|
            0 <= i < items.len() ==> float_free(#[trigger] items[i]),
        JsonModel::Object(members) => forall|i: int|
            0 <= i < members.len() ==> float_free((#[trigger] members[i]).1),
        _ => true,
    }
}

/// A tree without floats has nothing to forget.
pub proof fn blurred_float_free(tree: JsonModel)
    requires
        float_free(tree),
    ensures
        blurred(tree) == tree,
    decreases tree,
{
    match tree {
        JsonModel::Array(items) => {
            assert forall|i: int| 0 <= i < items.len() implies blurred(items[i]) == items[i] by {
                assert(float_free(items[i]));
                blurred_float_free(items[i]);
            }
            assert(blurred(tree)->Array_0 =~= items);
        },
        JsonModel::Object(members) => {
            assert forall|i: int| 0 <= i < members.len() implies blurred(members[i].1)
                == members[i].1 by {
                assert(float_free(members[i].1));
                blurred_float_free(members[i].1);
            }
            assert(blurred(tree)->Object_0 =~= members);
        },
        _ => {},
    }
}

/// Forgetting floats leaves a tree without floats behind, and only a tree
/// without floats is what it is blurred to.
pub proof fn blurred_to_float_free(tree: JsonModel)
    requires
        float_free(blurred(tree)),
    ensures
        float_free(tree),
        blurred(tree) == tree,
    decreases tree,
{
    match tree {
        JsonModel::Array(items) => {
            let b = blurred(tree)->Array_0;
            assert forall|i: int| 0 <= i < items.len() implies float_free(#[trigger] items[i]) by {
                assert(b[i] == blurred(items[i]));
                assert(float_free(b[i]));
                blurred_to_float_free(items[i]);
            }
        },
        JsonModel::Object(members) => {
            let b = blurred(tree)->Object_0;
            assert forall|i: int| 0 <= i < members.len() implies float_free(
                (#[trigger] members[i]).1,
            ) by {
                assert(b[i].1 == blurred(members[i].1));
                assert(float_free(b[i].1));
                blurred_to_float_free(members[i].1);
            }
        },
        _ => {},
    }
    blurred_float_free(tree);
}

/// The members of an object: names with their values.
pub type Members = Seq<(Seq<char>, JsonModel)>;

/// `i` is the first position in `members` that holds `key`.
pub open spec fn is_first(members: Members, key: Seq<char>, i: int) -> bool {
    &&& 0 <= i < members.len()
    &&& members[i].0 == key
    &&& forall|k: int| 0 <= k < i ==> (#[trigger] members[k]).0 != key
}

/// The value that `members` holds under `key`: that of the first member of
/// that name, `None` where there is none.
pub open spec fn lookup(members: Members, key: Seq<char>) -> Option<JsonModel> {
    if exists|i: int| is_first(members, key, i) {
        Some(members[choose|i: int| is_first(members, key, i)].1)
    } else {
        None
    }
}

/// No two members have the same name.
pub open spec fn distinct_names(members: Members) -> bool {
    forall|i: int, k: int|
        0 <= i < k < members.len() ==> (#[trigger] members[i]).0 != (#[trigger] members[k]).0
}

impl JsonModel {
    /// No object in the tree, at any depth, holds a name twice.
    pub open spec fn unique_keys(self) -> bool
        decreases self,
    {
        match self {
            JsonModel::Array(items) => forall|i: int|
                0 <= i < items.len() ==> (#[trigger] items[i]).unique_keys(),
            JsonModel::Object(members) => {
                &&& distinct_names(members)
                &&& forall|i: int|
                    0 <= i < members.len() ==> (#[trigger] members[i]).1.unique_keys()
            },
            _ => true,
        }
    }
}

/// The first member named `key` decides a lookup.
pub proof fn lookup_first(members: Members, key: Seq<char>, i: int)
    requires
        is_first(members, key, i),
    ensures
        lookup(members, key) == Some(members[i].1),
{
    let c = choose|c: int| is_first(members, key, c);
    assert(is_first(members, key, c));
    assert(c == i) by {
        if c < i {
            assert(members[c].0 != key);
        }
        if i < c {
            assert(members[i].0 != key);
        }
    }
}

/// A name that no member carries looks up to nothing.
pub proof fn lookup_absent(members: Members, key: Seq<char>)
    requires
        forall|k: int| 0 <= k < members.len() ==> (#[trigger] members[k]).0 != key,
    ensures
        lookup(members, key) is None,
{
    assert forall|i: int| !is_first(members, key, i) by {
        if 0 <= i < members.len() {
            assert(members[i].0 != key);
        }
    }
}

/// A member appended under another name leaves a lookup as it was.
pub proof fn lookup_ignores_other_names(
    members: Members,
    name: Seq<char>,
    value: JsonModel,
    key: Seq<char>,
)
    requires
        name != key,
    ensures
        lookup(members.push((name, value)), key) == lookup(members, key),
{
    let longer = members.push((name, value));
    if exists|i: int| is_first(members, key, i) {
        let i = choose|i: int| is_first(members, key, i);
        assert(is_first(longer, key, i)) by {
            assert(longer[i] == members[i]);
            assert forall|k: int| 0 <= k < i implies (#[trigger] longer[k]).0 != key by {
                assert(longer[k] == members[k]);
                assert(members[k].0 != key);
            }
        }
        lookup_first(longer, key, i);
        lookup_first(members, key, i);
    } else {
        assert forall|i: int| !is_first(longer, key, i) by {
            if is_first(longer, key, i) {
                assert(i < members.len());
                assert(longer[i] == members[i]);
                assert forall|k: int| 0 <= k < i implies (#[trigger] members[k]).0 != key by {
                    assert(longer[k] == members[k]);
                    assert(longer[k].0 != key);
                }
                assert(is_first(members, key, i));
            }
        }
    }
}

/// Every member of `first` is a member of `second`, and the other way round.
#[verifier::opaque]
pub open spec fn same_members(first: Members, second: Members) -> bool {
    &&& forall|i: int|
        0 <= i < first.len() ==> exists|k: int|
            0 <= k < second.len() && second[k] == #[trigger] first[i]
    &&& forall|k: int|
        0 <= k < second.len() ==> exists|i: int|
            0 <= i < first.len() && first[i] == #[trigger] second[k]
}

/// Where no name occurs twice, a lookup finds a member wherever it stands.
pub proof fn lookup_of_distinct(members: Members, i: int)
    requires
        distinct_names(members),
        0 <= i < members.len(),
    ensures
        lookup(members, members[i].0) == Some(members[i].1),
{
    let key = members[i].0;
    assert forall|k: int| 0 <= k < i implies (#[trigger] members[k]).0 != key by {
        assert(members[k].0 != members[i].0);
    }
    lookup_first(members, key, i);
}

/// Where no name occurs twice, a lookup does not depend on the order of the
/// members.
pub proof fn lookup_ignores_order(first: Members, second: Members, key: Seq<char>)
    requires
        distinct_names(first),
        distinct_names(second),
        same_members(first, second),
    ensures
        lookup(first, key) == lookup(second, key),
{
    reveal(same_members);
    if exists|i: int| 0 <= i < first.len() && (#[trigger] first[i]).0 == key {
        let i = choose|i: int| 0 <= i < first.len() && (#[trigger] first[i]).0 == key;
        let k = choose|k: int| 0 <= k < second.len() && second[k] == first[i];
        lookup_of_distinct(first, i);
        lookup_of_distinct(second, k);
    } else {
        assert forall|k: int| 0 <= k < second.len() implies (#[trigger] second[k]).0 != key by {
            let i = choose|i: int| 0 <= i < first.len() && first[i] == second[k];
            assert(first[i].0 != key);
        }
        lookup_absent(first, key);
        lookup_absent(second, key);
    }
}

/// The members of an object with the bits of every float forgotten.
pub open spec fn blurred_members(members: Members) -> Members {
    blurred(JsonModel::Object(members))->Object_0
}

/// Forgetting floats keeps every name in its place: a lookup finds the
/// blurred value where it found the value.
pub proof fn lookup_blurred(members: Members, key: Seq<char>)
    ensures
        lookup(blurred_members(members), key) == match lookup(members, key) {
            Some(value) => Some(blurred(value)),
            None => None,
        },
{
    let blurry = blurred_members(members);
    assert(blurry.len() == members.len());
    assert forall|i: int| 0 <= i < members.len() implies (#[trigger] blurry[i]).0 == members[i].0
        && blurry[i].1 == blurred(members[i].1) by {}
    if exists|i: int| is_first(members, key, i) {
        let i = choose|i: int| is_first(members, key, i);
        assert(is_first(blurry, key, i)) by {
            assert(blurry[i].0 == members[i].0);
            assert forall|k: int| 0 <= k < i implies (#[trigger] blurry[k]).0 != key by {
                assert(members[k].0 != key);
            }
        }
        lookup_first(members, key, i);
        lookup_first(blurry, key, i);
    } else {
        assert forall|i: int| !is_first(blurry, key, i) by {
            if is_first(blurry, key, i) {
                assert(blurry[i].0 == members[i].0);
                assert forall|k: int| 0 <= k < i implies (#[trigger] members[k]).0 != key by {
                    assert(blurry[k].0 != key);
                }
                assert(is_first(members, key, i));
            }
        }
    }
}

/// An owned JSON value.
///
/// An object is held as the list of its members: a map of the standard
/// library keyed by strings is beyond what can be reasoned about here, and a
/// list keeps the order in which a parsed document yields its members. A
/// lookup takes the first member of a name, so a list that repeats a name
/// still has one meaning; a value that comes from a document repeats none.
#[derive(Debug, PartialEq)]
pub enum Value {
    Null,
    Boolean(bool),
    I64(i64),
    U64(u64),
    /// A number with a fraction or an exponent, as its IEEE 754 bit pattern.
    F64(u64),
    String(String),
    Array(Vec<Value>),
    Object(Vec<(String, Value)>),
}

/// The tree that a value stands for.
pub open spec fn model_of(v: Value) -> JsonModel
    decreases v,
{
    match v {
        Value::Null => JsonModel::Null,
        Value::Boolean(b) => JsonModel::Boolean(b),
        Value::I64(n) => JsonModel::I64(n),
        Value::U64(n) => JsonModel::U64(n),
        Value::F64(bits) => JsonModel::F64(bits),
        Value::String(s) => JsonModel::String(s@),
        Value::Array(items) => JsonModel::Array(
            Seq::new(
                items@.len(),
                |i: int|
                    if 0 <= i < items@.len() {
                        model_of(items@[i])
                    } else {
                        JsonModel::Null
                    },
            ),
        ),
        Value::Object(members) => JsonModel::Object(
            Seq::new(
                members@.len(),
                |i: int|
                    if 0 <= i < members@.len() {
                        (members@[i].0@, model_of(members@[i].1))
                    } else {
                        (Seq::empty(), JsonModel::Null)
                    },
            ),
        ),
    }
}

impl View for Value {
    type V = JsonModel;

    open spec fn view(&self) -> JsonModel {
        model_of(*self)
    }
}

/// The models of a list of values.
pub open spec fn items_view(items: Seq<Value>) -> Seq<JsonModel> {
    Seq::new(items.len(), |i: int| items[i]@)
}

/// The models of a list of members.
pub open spec fn members_view(members: Seq<(String, Value)>) -> Members {
    Seq::new(members.len(), |i: int| (members[i].0@, members[i].1@))
}

/// The view of an array is the list of its items' views.
pub proof fn array_view(items: Vec<Value>)
    ensures
        Value::Array(items)@ == JsonModel::Array(items_view(items@)),
{
    assert(Value::Array(items)@->Array_0 =~= items_view(items@));
}

/// The view of an object is the list of its members' names and views.
pub proof fn object_view(members: Vec<(String, Value)>)
    ensures
        Value::Object(members)@ == JsonModel::Object(members_view(members@)),
{
    assert(Value::Object(members)@->Object_0 =~= members_view(members@));
}

/// Whether two texts are the same, decided on their UTF-8 bytes.
pub fn same_text(a: &str, b: &str) -> (r: bool)
    ensures
        r == (a@ == b@),
{
    broadcast use vstd::utf8::encode_utf8_decode_utf8;

    let x = a.as_bytes();
    let y = b.as_bytes();
    if x.len() != y.len() {
        return false;
    }
    let mut i: usize = 0;
    while i < x.len()
        invariant
            i <= x.len(),
            x.len() == y.len(),
            x@ == encode_utf8(a@),
            y@ == encode_utf8(b@),
            forall|k: int| 0 <= k < i ==> x@[k] == y@[k],
        decreases x.len() - i,
    {
        if x[i] != y[i] {
            return false;
        }
        i += 1;
    }
    assert(x@ =~= y@);
    assert(decode_utf8(encode_utf8(a@)) == a@ && decode_utf8(encode_utf8(b@)) == b@);
    true
}

/// The position of the first member of `members` named `key`.
pub fn position(members: &Vec<(String, Value)>, key: &str) -> (r: Option<usize>)
    ensures
        match r {
            Some(i) => is_first(members_view(members@), key@, i as int),
            None => forall|i: int| !is_first(members_view(members@), key@, i),
        },
{
    let mut i: usize = 0;
    while i < members.len()
        invariant
            i <= members.len(),
            forall|k: int| 0 <= k < i ==> (#[trigger] members_view(members@)[k]).0 != key@,
        decreases members.len() - i,
    {
        if same_text(members[i].0.as_str(), key) {
            assert(members_view(members@)[i as int].0 == key@);
            return Some(i);
        }
        assert(members_view(members@)[i as int].0 != key@);
        i += 1;
    }
    assert forall|i: int| !is_first(members_view(members@), key@, i) by {
        if 0 <= i < members.len() {
            assert(members_view(members@)[i].0 != key@);
        }
    }
    None
}

/// The member of `members` named `key`, if there is one.
pub fn find<'a>(members: &'a Vec<(String, Value)>, key: &str) -> (r: Option<&'a Value>)
    ensures
        match r {
            Some(v) => lookup(members_view(members@), key@) == Some(v@),
            None => lookup(members_view(members@), key@) is None,
        },
{
    match position(members, key) {
        Some(i) => {
            proof {
                lookup_first(members_view(members@), key@, i as int);
            }
            Some(&members[i].1)
        },
        None => None,
    }
}

impl Value {
    /// The member named `key` where the value is an object that has one.
    pub fn get(&self, key: &str) -> (r: Option<&Value>)
        ensures
            match r {
                Some(v) => self@ is Object && lookup(self@->Object_0, key@) == Some(v@),
                None => self@ is Object ==> lookup(self@->Object_0, key@) is None,
            },
    {
        match self {
            Value::Object(members) => {
                proof {
                    object_view(*members);
                }
                find(members, key)
            },
            _ => None,
        }
    }
}

/// `rustc_serialize::json::Json`, the parser crate's value, carried as it is.
/// What it holds is read through [`json_model`].
#[verifier::external_type_specification]
#[verifier::external_body]
pub struct ExJson(Json);

/// The tree that a value of the parser crate holds. The members of an object
/// stand in the order in which its map yields them.
pub uninterp spec fn json_model(j: Json) -> JsonModel;

/// What `rustc_serialize::json::Json::from_reader` makes of a document: the
/// tree it builds, with the bits of its floats forgotten, or the failure it
/// reports. (The value that the parser computes for a number with a fraction
/// or an exponent depends on the machine's arithmetic; where such a number
/// stands does not.)
pub uninterp spec fn parsed(body: Seq<u8>) -> Result<JsonModel, Failure>;

/// The text that the parser crate's `Display` for `Json` writes for a tree:
/// its compact rendering.
pub uninterp spec fn rendered(tree: JsonModel) -> Seq<char>;

/// One level of a value of the parser crate.
pub enum Node<'a> {
    Null,
    Boolean(bool),
    I64(i64),
    U64(u64),
    F64(u64),
    String(&'a String),
    Array(&'a Vec<Json>),
    Object(Vec<(&'a String, &'a Json)>),
}

/// The tree below a node.
pub open spec fn node_model(n: Node) -> JsonModel {
    match n {
        Node::Null => JsonModel::Null,
        Node::Boolean(b) => JsonModel::Boolean(b),
        Node::I64(v) => JsonModel::I64(v),
        Node::U64(v) => JsonModel::U64(v),
        Node::F64(bits) => JsonModel::F64(bits),
        Node::String(s) => JsonModel::String(s@),
        Node::Array(items) => JsonModel::Array(items@.map_values(|c: Json| json_model(c))),
        Node::Object(members) => JsonModel::Object(
            members@.map_values(|m: (&String, &Json)| (m.0@, json_model(*m.1))),
        ),
    }
}

/// Calls `rustc_serialize::json::Json::from_reader` on the bytes of `body`.
///
/// The document has to be one that the parser can take. Either it is no text
/// at all, which the parser finds out before it reads a token. Or the scan
/// finds nothing in it: the names on the path to any member fit the 16 bits
/// with which the parser addresses them, every exponent fits the machine
/// word in which the parser adds it up, the nesting is no deeper than
/// `MAX_DEPTH`, the length is within `MAX_BODY`, and no comma stands before
/// the closing brace of an object that lies inside another value, where the
/// parser drops the enclosing name from its path.
///
/// Taken on trust: on such a document the call returns; apart from the bits
/// of floats its outcome is a function of the bytes alone; and a failure is
/// a syntax error with its code, line and column, or an error of the reader.
#[verifier::external_body]
pub(crate) fn parse_document(body: &[u8]) -> (r: Result<Json, Error>)
    requires
        takeable(body@),
    ensures
        match r {
            Ok(j) => parsed(body@) == Ok::<JsonModel, Failure>(blurred(json_model(j))),
            Err(e) => parsed(body@) == Err::<JsonModel, Failure>(e@),
        },
        r matches Err(e) ==> e is Parse || e is Io,
{
    let mut reader = body;
    match Json::from_reader(&mut reader) {
        Ok(j) => Ok(j),
        Err(ParserError::SyntaxError(code, line, col)) => Err(Error::Parse { code, line, col }),
        Err(ParserError::IoError(e)) => Err(Error::Io(e.to_string())),
    }
}

/// Tells the variants of `rustc_serialize::json::Json` apart and hands out
/// what the variant holds: a scalar by value (a float as its bits), a string
/// and the items of an array by reference, the members of an object as the
/// list that iterating over its map gives.
///
/// Taken on trust: the node describes the value one level deep, and the map
/// of an object yields each name once.
#[verifier::external_body]
pub(crate) fn peek<'a>(j: &'a Json) -> (n: Node<'a>)
    ensures
        node_model(n) == json_model(*j),
        n matches Node::Object(members) ==> distinct_names(node_model(n)->Object_0),
{
    match j {
        Json::Null => Node::Null,
        Json::Boolean(b) => Node::Boolean(*b),
        Json::I64(v) => Node::I64(*v),
        Json::U64(v) => Node::U64(*v),
        Json::F64(x) => Node::F64(x.to_bits()),
        Json::String(s) => Node::String(s),
        Json::Array(items) => Node::Array(items),
        Json::Object(map) => Node::Object(map.iter().collect()),
    }
}

/// Calls `to_string` on a value of the parser crate, which goes through its
/// `Display`.
///
/// Taken on trust: the text is a function of the tree alone.
#[verifier::external_body]
pub(crate) fn render(j: &Json) -> (text: String)
    ensures
        text@ == rendered(json_model(*j)),
{
    j.to_string()
}

/// The rendering of the member named `key` of a value of the parser crate,
/// where the value is an object that has one.
pub fn render_member(j: &Json, key: &str) -> (r: Option<String>)
    ensures
        match json_model(*j) {
            JsonModel::Object(members) => match lookup(members, key@) {
                Some(member) => r matches Some(text) && text@ == rendered(member),
                None => r is None,
            },
            _ => r is None,
        },
{
    match peek(j) {
        Node::Object(members) => {
            let ghost models = members@.map_values(|m: (&String, &Json)| (m.0@, json_model(*m.1)));
            let mut i: usize = 0;
            while i < members.len()
                invariant
                    i <= members.len(),
                    models == members@.map_values(|m: (&String, &Json)| (m.0@, json_model(*m.1))),
                    json_model(*j) == JsonModel::Object(models),
                    forall|k: int| 0 <= k < i ==> (#[trigger] models[k]).0 != key@,
                decreases members.len() - i,
            {
                if same_text(members[i].0.as_str(), key) {
                    proof {
                        assert(models[i as int].0 == key@);
                        lookup_first(models, key@, i as int);
                    }
                    return Some(render(members[i].1));
                }
                assert(models[i as int].0 != key@);
                i += 1;
            }
            proof {
                lookup_absent(models, key@);
            }
            None
        },
        _ => None,
    }
}

/// Copies a value of the parser crate into an owned tree.
///
/// The copy descends once per level of nesting, as the parser did when it
/// built the value.
pub fn import(j: &Json) -> (v: Value)
    ensures
        v@ == json_model(*j),
        v@.unique_keys(),
    decreases json_model(*j),
{
    match peek(j) {
        Node::Null => Value::Null,
        Node::Boolean(b) => Value::Boolean(b),
        Node::I64(n) => Value::I64(n),
        Node::U64(n) => Value::U64(n),
        Node::F64(bits) => Value::F64(bits),
        Node::String(s) => Value::String(s.clone()),
        Node::Array(items) => {
            let ghost models = items@.map_values(|c: Json| json_model(c));
            let mut out: Vec<Value> = Vec::new();
            let mut i: usize = 0;
            while i < items.len()
                invariant
                    i <= items.len(),
                    out.len() == i,
                    models == items@.map_values(|c: Json| json_model(c)),
                    json_model(*j) == JsonModel::Array(models),
                    forall|k: int|
                        0 <= k < i ==> (#[trigger] out@[k])@ == models[k] && out@[k]@.unique_keys(),
                decreases items.len() - i,
            {
                proof {
                    assert(decreases_to!(json_model(*j) => json_model(*j)->Array_0));
                    assert(decreases_to!(models => models[i as int]));
                }
                let child = import(&items[i]);
                out.push(child);
                i += 1;
            }
            proof {
                array_view(out);
                assert(items_view(out@) =~= models);
            }
            Value::Array(out)
        },
        Node::Object(members) => {
            let ghost models = members@.map_values(|m: (&String, &Json)| (m.0@, json_model(*m.1)));
            let mut out: Vec<(String, Value)> = Vec::new();
            let mut i: usize = 0;
            while i < members.len()
                invariant
                    i <= members.len(),
                    out.len() == i,
                    models == members@.map_values(|m: (&String, &Json)| (m.0@, json_model(*m.1))),
                    json_model(*j) == JsonModel::Object(models),
                    forall|k: int|
                        0 <= k < i ==> (#[trigger] out@[k]).0@ == models[k].0 && out@[k].1@
                            == models[k].1 && out@[k].1@.unique_keys(),
                decreases members.len() - i,
            {
                proof {
                    assert(decreases_to!(json_model(*j) => json_model(*j)->Object_0));
                    assert(decreases_to!(models => models[i as int]));
                    assert(decreases_to!(models[i as int] => models[i as int].1));
                }
                let child = import(members[i].1);
                out.push((members[i].0.clone(), child));
                i += 1;
            }
            proof {
                object_view(out);
                assert(members_view(out@) =~= models);
            }
            Value::Object(out)
        },
    }
}

} // verus!
