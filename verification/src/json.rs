//! JSON documents as trees of plain values.
//!
//! Parsing is `serde_json`'s. What it returns is copied, variant by variant, into [`Json`],
//! which verified code can read.

use crate::scalar::Scalar;
use vstd::prelude::*;

verus! {

/// `serde_json::Value`, which the verifier carries and does not look into.
#[verifier::external_type_specification]
#[verifier::external_body]
pub struct ExValue(serde_json::Value);

/// A JSON number by its readings: as a binary64 quantity and as an unsigned integer, each
/// where it has one. A number that was parsed has the readings that `serde_json` reports of
/// it; a number that the core writes has one reading alone.
#[derive(Clone, Copy, Debug, PartialEq)]
pub struct Numeral {
    pub real: Option<Scalar>,
    pub whole: Option<u64>,
}

/// A JSON document.
#[derive(Debug, PartialEq)]
pub enum Json {
    Null,
    Flag(bool),
    Number(Numeral),
    Text(String),
    List(Vec<Json>),
    Record(Vec<(String, Json)>),
}

/// A [`Json`] with its texts and lists as sequences.
pub enum JsonModel {
    Null,
    Flag(bool),
    Number(Numeral),
    Text(Seq<char>),
    List(Seq<JsonModel>),
    Record(Seq<(Seq<char>, JsonModel)>),
}

impl View for Json {
    type V = JsonModel;

    open spec fn view(&self) -> JsonModel
        decreases self,
    {
        match self {
            Json::Null => JsonModel::Null,
            Json::Flag(flag) => JsonModel::Flag(*flag),
            Json::Number(number) => JsonModel::Number(*number),
            Json::Text(text) => JsonModel::Text(text@),
            Json::List(items) => JsonModel::List(
                Seq::new(
                    items@.len(),
                    |i: int|
                        if 0 <= i < items@.len() {
                            items@[i]@
                        } else {
                            JsonModel::Null
                        },
                ),
            ),
            Json::Record(members) => JsonModel::Record(
                Seq::new(
                    members@.len(),
                    |i: int|
                        if 0 <= i < members@.len() {
                            (members@[i].0@, members@[i].1@)
                        } else {
                            (Seq::empty(), JsonModel::Null)
                        },
                ),
            ),
        }
    }
}

/// The members of an object by their views, in order.
pub open spec fn members_view(members: Seq<(String, Json)>) -> Seq<(Seq<char>, JsonModel)> {
    Seq::new(members.len(), |i: int| (members[i].0@, members[i].1@))
}

/// The view of an object is that of its members.
pub proof fn record_view(members: Vec<(String, Json)>)
    ensures
        Json::Record(members)@ == JsonModel::Record(members_view(members@)),
{
    reveal_with_fuel(<Json as View>::view, 2);
    assert(Json::Record(members)@->Record_0 =~= members_view(members@));
}

/// The document that `serde_json` reads out of `text`, where it reads one. It reads none out
/// of text that is no JSON notation, nor out of a document that it finds too deep or that
/// holds a number beyond binary64.
pub uninterp spec fn json_tree(text: Seq<char>) -> Option<JsonModel>;

/// The document that a `serde_json::Value` holds.
pub uninterp spec fn value_tree(value: serde_json::Value) -> JsonModel;

/// Calls `serde_json::from_str` for a `serde_json::Value` and drops the error where it fails.
/// Whether it fails, and the value it returns, depend on the text alone: the contract gives
/// both a name and claims no more.
#[verifier::external_body]
fn parse_value(text: &str) -> (r: Option<serde_json::Value>)
    ensures
        match r {
            Some(value) => json_tree(text@) == Some(value_tree(value)),
            None => json_tree(text@) is None,
        },
{
    serde_json::from_str::<serde_json::Value>(text).ok()
}

/// Copies a `serde_json::Value` variant by variant. A number gives what `Number::as_f64` and
/// `Number::as_u64` return for it, the first by its bits; an object gives its members in the
/// order in which its map hands them out. The contract names what was copied and claims no
/// more.
#[verifier::external_body]
fn tree_of(value: serde_json::Value) -> (r: Json)
    ensures
        r@ == value_tree(value),
{
    match value {
        serde_json::Value::Null => Json::Null,
        serde_json::Value::Bool(b) => Json::Flag(b),
        serde_json::Value::Number(n) => Json::Number(
            Numeral { real: n.as_f64().map(|x| Scalar { bits: x.to_bits() }), whole: n.as_u64() },
        ),
        serde_json::Value::String(s) => Json::Text(s),
        serde_json::Value::Array(a) => Json::List(a.into_iter().map(tree_of).collect()),
        serde_json::Value::Object(m) => Json::Record(
            m.into_iter().map(|(k, v)| (k, tree_of(v))).collect(),
        ),
    }
}

/// A document that may be absent, by its view.
pub open spec fn tree_view(tree: Option<Json>) -> Option<JsonModel> {
    match tree {
        Some(t) => Some(t@),
        None => None,
    }
}

/// Parses `text` as a JSON document.
pub fn parse(text: &str) -> (r: Option<Json>)
    ensures
        tree_view(r) == json_tree(text@),
{
    match parse_value(text) {
        Some(value) => Some(tree_of(value)),
        None => None,
    }
}

/// Whether two texts hold the same characters.
pub fn same_text(a: &str, b: &str) -> (r: bool)
    ensures
        r == (a@ == b@),
{
    broadcast use vstd::utf8::encode_utf8_decode_utf8;

    let x = a.as_bytes();
    let y = b.as_bytes();
    if x.len() != y.len() {
        return false;
    }
    let mut i: usize = 0;
    while i < x.len()
        invariant
            i <= x.len(),
            x.len() == y.len(),
            x@ == vstd::utf8::encode_utf8(a@),
            y@ == vstd::utf8::encode_utf8(b@),
            forall|j: int| 0 <= j < i ==> x@[j] == y@[j],
        decreases x.len() - i,
    {
        if x[i] != y[i] {
            return false;
        }
        i = i + 1;
    }
    proof {
        assert(x@ =~= y@);
        assert(vstd::utf8::decode_utf8(vstd::utf8::encode_utf8(a@)) == a@);
        assert(vstd::utf8::decode_utf8(vstd::utf8::encode_utf8(b@)) == b@);
    }
    true
}

/// The value of the first of `members` that is named `key`.
pub open spec fn member(members: Seq<(Seq<char>, JsonModel)>, key: Seq<char>) -> Option<JsonModel>
    decreases members.len(),
{
    if members.len() == 0 {
        None
    } else if members[0].0 == key {
        Some(members[0].1)
    } else {
        member(members.drop_first(), key)
    }
}

/// The value of the first of `members` that is named `key`.
pub fn find_member<'a>(members: &'a Vec<(String, Json)>, key: &str) -> (r: Option<&'a Json>)
    ensures
        match r {
            Some(value) => member(members_view(members@), key@) == Some(value@),
            None => member(members_view(members@), key@) is None,
        },
{
    let ghost all = members_view(members@);
    let mut i: usize = 0;
    proof {
        assert(all.skip(0) == all);
    }
    while i < members.len()
        invariant
            i <= members.len(),
            all == members_view(members@),
            member(all, key@) == member(all.skip(i as int), key@),
        decreases members.len() - i,
    {
        proof {
            assert(all.skip(i as int).drop_first() == all.skip(i + 1));
            assert(all.skip(i as int)[0] == (members@[i as int].0@, members@[i as int].1@));
        }
        if same_text(members[i].0.as_str(), key) {
            return Some(&members[i].1);
        }
        i = i + 1;
    }
    None
}

} // verus!
