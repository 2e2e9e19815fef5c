//! JSON documents as trees, and the members of their objects. The text of a
//! document is read and written by `serde_json`; what a tree means is this
//! library's own affair.

use vstd::prelude::*;
use vstd::string::*;
use crate::text::same_text;

verus! {

/// A JSON document.
#[derive(Debug)]
pub enum Json {
    Null,
    Bool(bool),
    /// A number; its value where it is a whole number that fits 64 bits with
    /// sign, nothing otherwise.
    Number(Option<i64>),
    Text(String),
    List(Vec<Json>),
    /// An object: its members, in the order in which they are held.
    Object(Vec<Member>),
}

/// One member of a JSON object.
#[derive(Debug)]
pub struct Member {
    pub key: String,
    pub value: Json,
}

#[verifier::external_type_specification]
#[verifier::external_body]
pub struct ExValue(serde_json::Value);

/// Whether every number in a document has a value, so that the document can
/// be written as it is.
pub open spec fn writable(doc: Json) -> bool
    decreases doc,
{
    match doc {
        Json::Number(None) => false,
        Json::List(items) => forall|i: int|
            0 <= i < items@.len() ==> writable(#[trigger] items@[i]),
        Json::Object(members) => forall|i: int|
            0 <= i < members@.len() ==> writable((#[trigger] members@[i]).value),
        _ => true,
    }
}

/// The document that a text is, when it is JSON.
pub uninterp spec fn parsed_json(text: Seq<char>) -> Option<Json>;

/// The text of a document, laid out for reading.
pub uninterp spec fn rendered_json(doc: Json) -> Seq<char>;

/// Turns a `serde_json::Value` into a tree, variant by variant; a number
/// goes through `Number::as_i64`.
#[verifier::external_body]
fn tree_of_value(value: serde_json::Value) -> Json {
    match value {
        serde_json::Value::Null => Json::Null,
        serde_json::Value::Bool(b) => Json::Bool(b),
        serde_json::Value::Number(n) => Json::Number(n.as_i64()),
        serde_json::Value::String(s) => Json::Text(s),
        serde_json::Value::Array(items) => Json::List(
            items.into_iter().map(tree_of_value).collect(),
        ),
        serde_json::Value::Object(map) => Json::Object(
            map.into_iter().map(|(key, v)| Member { key, value: tree_of_value(v) }).collect(),
        ),
    }
}

/// Turns a tree into a `serde_json::Value`, variant by variant. A number
/// without value has no counterpart there and is not handed in.
#[verifier::external_body]
fn value_of_tree(doc: &Json) -> serde_json::Value
    requires
        writable(*doc),
{
    match doc {
        Json::Null | Json::Number(None) => serde_json::Value::Null,
        Json::Bool(b) => serde_json::Value::Bool(*b),
        Json::Number(Some(n)) => serde_json::Value::from(*n),
        Json::Text(s) => serde_json::Value::String(s.clone()),
        Json::List(items) => serde_json::Value::Array(items.iter().map(value_of_tree).collect()),
        Json::Object(members) => serde_json::Value::Object(
            members.iter().map(|m| (m.key.clone(), value_of_tree(&m.value))).collect(),
        ),
    }
}

/// Calls `serde_json::from_str` for a `serde_json::Value`: the document that
/// the text is, or nothing when the text is not JSON. The document depends
/// on the text alone.
#[verifier::external_body]
pub(crate) fn parse_json(text: &str) -> (r: Option<Json>)
    ensures
        r == parsed_json(text@),
{
    serde_json::from_str::<serde_json::Value>(text).ok().map(tree_of_value)
}

/// Calls `serde_json::to_string_pretty` on the document as a
/// `serde_json::Value`. The text depends on the document alone.
#[verifier::external_body]
pub(crate) fn render_json(doc: &Json) -> (r: String)
    requires
        writable(*doc),
    ensures
        r@ == rendered_json(*doc),
{
    serde_json::to_string_pretty(&value_of_tree(doc)).unwrap_or_default()
}

/// The value of the first member, from `from` on, that goes by `key`.
pub open spec fn member_from(members: Seq<Member>, key: Seq<char>, from: int) -> Option<Json>
    decreases members.len() - from,
{
    if from < 0 || from >= members.len() {
        None
    } else if members[from].key@ == key {
        Some(members[from].value)
    } else {
        member_from(members, key, from + 1)
    }
}

/// The value of the first member that goes by `key`.
pub open spec fn member(members: Seq<Member>, key: Seq<char>) -> Option<Json> {
    member_from(members, key, 0)
}

/// A required text: the member must be there and be a text.
pub open spec fn text_member(members: Seq<Member>, key: Seq<char>) -> Option<Seq<char>> {
    match member(members, key) {
        Some(Json::Text(s)) => Some(s@),
        _ => None,
    }
}

/// An optional text: a missing member reads as the empty text; one that is
/// there must be a text.
pub open spec fn text_member_or_empty(members: Seq<Member>, key: Seq<char>) -> Option<
    Seq<char>,
> {
    match member(members, key) {
        None => Some(Seq::empty()),
        Some(Json::Text(s)) => Some(s@),
        Some(_) => None,
    }
}

/// A required whole number: the member must be there and be a number with
/// a value.
pub open spec fn int_member(members: Seq<Member>, key: Seq<char>) -> Option<i64> {
    match member(members, key) {
        Some(Json::Number(Some(n))) => Some(n),
        _ => None,
    }
}

/// A required truth value: the member must be there and be `true` or
/// `false`.
pub open spec fn bool_member(members: Seq<Member>, key: Seq<char>) -> Option<bool> {
    match member(members, key) {
        Some(Json::Bool(b)) => Some(b),
        _ => None,
    }
}

/// A required list: the member must be there and be a list.
pub open spec fn list_member(members: Seq<Member>, key: Seq<char>) -> Option<Seq<Json>> {
    match member(members, key) {
        Some(Json::List(items)) => Some(items@),
        _ => None,
    }
}

/// Whether a member goes by `key` and holds the text `value`.
pub open spec fn is_text_member(m: Member, key: Seq<char>, value: Seq<char>) -> bool {
    m.key@ == key && (m.value matches Json::Text(s) && s@ == value)
}

/// The value of the first member that goes by `key`.
pub fn find_member<'a>(members: &'a Vec<Member>, key: &str) -> (r: Option<&'a Json>)
    ensures
        match r {
            Some(j) => member(members@, key@) == Some(*j),
            None => member(members@, key@) is None,
        },
{
    let mut i: usize = 0;
    while i < members.len()
        invariant
            i <= members.len(),
            member_from(members@, key@, 0) == member_from(members@, key@, i as int),
        decreases members.len() - i,
    {
        if same_text(members[i].key.as_str(), key) {
            return Some(&members[i].value);
        }
        i += 1;
    }
    None
}

/// A required text.
pub fn get_text(members: &Vec<Member>, key: &str) -> (r: Option<String>)
    ensures
        crate::text::opt_text(r) == text_member(members@, key@),
{
    match find_member(members, key) {
        Some(Json::Text(s)) => Some(s.clone()),
        _ => None,
    }
}

/// An optional text.
pub fn get_text_or_empty(members: &Vec<Member>, key: &str) -> (r: Option<String>)
    ensures
        crate::text::opt_text(r) == text_member_or_empty(members@, key@),
{
    match find_member(members, key) {
        None => {
            let empty = String::new();
            assert(empty@ =~= Seq::<char>::empty());
            Some(empty)
        },
        Some(Json::Text(s)) => Some(s.clone()),
        Some(_) => None,
    }
}

/// A required whole number.
pub fn get_int(members: &Vec<Member>, key: &str) -> (r: Option<i64>)
    ensures
        r == int_member(members@, key@),
{
    match find_member(members, key) {
        Some(Json::Number(Some(n))) => Some(*n),
        _ => None,
    }
}

/// A required truth value.
pub fn get_bool(members: &Vec<Member>, key: &str) -> (r: Option<bool>)
    ensures
        r == bool_member(members@, key@),
{
    match find_member(members, key) {
        Some(Json::Bool(b)) => Some(*b),
        _ => None,
    }
}

/// A required list.
pub fn get_list<'a>(members: &'a Vec<Member>, key: &str) -> (r: Option<&'a Vec<Json>>)
    ensures
        match r {
            Some(items) => list_member(members@, key@) == Some(items@),
            None => list_member(members@, key@) is None,
        },
{
    match find_member(members, key) {
        Some(Json::List(items)) => Some(items),
        _ => None,
    }
}

/// A member that holds a text.
pub fn text_entry(key: &str, value: &str) -> (m: Member)
    ensures
        is_text_member(m, key@, value@),
{
    Member { key: key.to_owned(), value: Json::Text(value.to_owned()) }
}

} // verus!
