//! A JSON value tree owned by this library, with its mathematical model.
//!
//! Reading and writing JSON text is `serde_json`'s work; everything that
//! inspects or builds a tree is verified code over [`JsonValue`].

use crate::text::text_eq;
use vstd::prelude::*;

verus! {

#[verifier::external_type_specification]
#[verifier::external_body]
pub struct ExNumber(serde_json::Number);

#[verifier::external_type_specification]
#[verifier::external_body]
pub struct ExValue(serde_json::Value);

/// A JSON value. An object keeps its members in the order they were added;
/// when a key occurs twice, the later member is the one that counts. Two
/// values are equal where they are the same whatever the order of the
/// members of their objects.
#[derive(Debug)]
pub enum Json {
    Null,
    Bool(bool),
    Number(serde_json::Number),
    String(String),
    Array(Vec<Json>),
    Object(Vec<(String, Json)>),
}

/// The mathematical model of a JSON value.
pub enum JsonValue {
    Null,
    Bool(bool),
    Number(serde_json::Number),
    String(Seq<char>),
    Array(Seq<JsonValue>),
    Object(Seq<(Seq<char>, JsonValue)>),
}

impl View for Json {
    type V = JsonValue;

    open spec fn view(&self) -> JsonValue
        decreases self,
    {
        match self {
            Json::Null => JsonValue::Null,
            Json::Bool(b) => JsonValue::Bool(*b),
            Json::Number(n) => JsonValue::Number(*n),
            Json::String(s) => JsonValue::String(s@),
            Json::Array(items) => JsonValue::Array(
                Seq::new(
                    items@.len(),
                    |i: int|
                        if 0 <= i < items@.len() {
                            items@[i].view()
                        } else {
                            JsonValue::Null
                        },
                ),
            ),
            Json::Object(members) => JsonValue::Object(
                Seq::new(
                    members@.len(),
                    |i: int|
                        (
                            members@[i].0@,
                            if 0 <= i < members@.len() {
                                members@[i].1.view()
                            } else {
                                JsonValue::Null
                            },
                        ),
                ),
            ),
        }
    }
}

impl Clone for Json {
    fn clone(&self) -> (r: Json)
        ensures
            r@ == self@,
    {
        self.duplicate()
    }
}

/// The models of the items of an array.
pub open spec fn items_view(items: Seq<Json>) -> Seq<JsonValue> {
    Seq::new(items.len(), |i: int| items[i]@)
}

/// The models of the members of an object.
pub open spec fn members_view(members: Seq<(String, Json)>) -> Seq<(Seq<char>, JsonValue)> {
    Seq::new(members.len(), |i: int| (members[i].0@, members[i].1@))
}

/// The value that an object holds under `key`: that of the last member with
/// that key, if there is one.
pub open spec fn lookup(members: Seq<(Seq<char>, JsonValue)>, key: Seq<char>) -> Option<JsonValue>
    decreases members.len(),
{
    if members.len() == 0 {
        None
    } else if members.last().0 == key {
        Some(members.last().1)
    } else {
        lookup(members.drop_last(), key)
    }
}

/// The length and the first two characters of a key: what tells the keys of
/// one object of this library apart.
pub open spec fn key_mark(key: Seq<char>) -> (nat, char, char) {
    (key.len(), key[0], key[1])
}

/// The member of `value` under `key`; `None` where `value` is no object.
pub open spec fn member(value: JsonValue, key: Seq<char>) -> Option<JsonValue> {
    match value {
        JsonValue::Object(members) => lookup(members, key),
        _ => None,
    }
}

/// The model of an array is the sequence of its items' models.
pub broadcast proof fn lemma_array_view(items: Vec<Json>)
    ensures
        #[trigger] Json::Array(items)@ == JsonValue::Array(items_view(items@)),
{
    assert(Json::Array(items)@->Array_0 =~= items_view(items@));
}

/// The model of an object is the sequence of its members' models.
pub broadcast proof fn lemma_object_view(members: Vec<(String, Json)>)
    ensures
        #[trigger] Json::Object(members)@ == JsonValue::Object(members_view(members@)),
{
    let direct = Json::Object(members)@->Object_0;
    assert(direct =~= members_view(members@));
}

/// Looking a key up after one more member was added.
pub broadcast proof fn lemma_lookup_push(
    members: Seq<(Seq<char>, JsonValue)>,
    key: Seq<char>,
    value: JsonValue,
    wanted: Seq<char>,
)
    ensures
        #[trigger] lookup(members.push((key, value)), wanted) == if key == wanted {
            Some(value)
        } else {
            lookup(members, wanted)
        },
{
    let longer = members.push((key, value));
    assert(longer.drop_last() =~= members);
}

/// Nothing is found in an object without members.
pub broadcast proof fn lemma_lookup_empty(wanted: Seq<char>)
    ensures
        #[trigger] lookup(Seq::<(Seq<char>, JsonValue)>::empty(), wanted) is None,
{
}

// ---------------------------------------------------------------------
// Numbers
// ---------------------------------------------------------------------

/// What `serde_json` gives as the `i64` of a number: its value, where it is
/// an integer that fits an `i64`.
pub uninterp spec fn number_i64(n: serde_json::Number) -> Option<i64>;

/// What `serde_json` gives as the `u64` of a number: its value, where it is
/// an integer that is not negative.
pub uninterp spec fn number_u64(n: serde_json::Number) -> Option<u64>;

/// The JSON number that `serde_json` makes from an `i64`.
pub uninterp spec fn i64_number(i: i64) -> serde_json::Number;

/// The JSON number that `serde_json` makes from a `u64`.
pub uninterp spec fn u64_number(u: u64) -> serde_json::Number;

/// `Number::from` of `serde_json`, for an `i64`: a number whose `i64` is
/// that integer.
#[verifier::external_body]
fn number_from_i64(i: i64) -> (n: serde_json::Number)
    ensures
        n == i64_number(i),
        number_i64(n) == Some(i),
{
    serde_json::Number::from(i)
}

/// `Number::from` of `serde_json`, for a `u64`: a number whose `u64` is
/// that integer.
#[verifier::external_body]
fn number_from_u64(u: u64) -> (n: serde_json::Number)
    ensures
        n == u64_number(u),
        number_u64(n) == Some(u),
{
    serde_json::Number::from(u)
}

/// `Number::as_i64` of `serde_json`.
#[verifier::external_body]
fn number_as_i64(n: &serde_json::Number) -> (r: Option<i64>)
    ensures
        r == number_i64(*n),
{
    n.as_i64()
}

/// `Number::as_u64` of `serde_json`.
#[verifier::external_body]
fn number_as_u64(n: &serde_json::Number) -> (r: Option<u64>)
    ensures
        r == number_u64(*n),
{
    n.as_u64()
}

/// `Clone::clone` of `serde_json::Number`: an equal number.
pub assume_specification[ <serde_json::Number as Clone>::clone ](n: &serde_json::Number) -> (r:
    serde_json::Number)
    ensures
        r == *n,
;

// ---------------------------------------------------------------------
// Text
// ---------------------------------------------------------------------

/// What `serde_json` reads from a text: the value, or what it says of a
/// text that is not one JSON value.
pub uninterp spec fn text_read(text: Seq<char>) -> Result<serde_json::Value, Seq<char>>;

/// The text that `serde_json` writes for a value, without added white space;
/// `None` where it refuses.
pub uninterp spec fn value_text(value: serde_json::Value) -> Option<Seq<char>>;

/// The tree that a `serde_json` value holds.
pub uninterp spec fn value_tree(value: serde_json::Value) -> JsonValue;

/// The `serde_json` value that is built from a tree.
pub uninterp spec fn tree_value(tree: JsonValue) -> serde_json::Value;

/// `serde_json::from_str`, read as a `serde_json::Value`; where it refuses,
/// the error that it gives, in words.
#[verifier::external_body]
fn read_value(text: &str) -> (r: Result<serde_json::Value, String>)
    ensures
        match r {
            Ok(value) => text_read(text@) == Ok::<serde_json::Value, Seq<char>>(value),
            Err(refusal) => text_read(text@) == Err::<serde_json::Value, Seq<char>>(refusal@),
        },
{
    serde_json::from_str::<serde_json::Value>(text).map_err(|e| e.to_string())
}

/// `serde_json::to_string` of a `serde_json::Value`.
#[verifier::external_body]
fn write_value(value: &serde_json::Value) -> (r: Option<String>)
    ensures
        crate::text::opt_text(r) == value_text(*value),
{
    serde_json::to_string(value).ok()
}

/// The text that `serde_json` writes for a value when it lays it out for
/// readers, with line breaks and indentation; `None` where it refuses.
pub uninterp spec fn value_pretty_text(value: serde_json::Value) -> Option<Seq<char>>;

/// `serde_json::to_string_pretty` of a `serde_json::Value`.
#[verifier::external_body]
fn write_value_pretty(value: &serde_json::Value) -> (r: Option<String>)
    ensures
        crate::text::opt_text(r) == value_pretty_text(*value),
{
    serde_json::to_string_pretty(value).ok()
}

/// Takes a `serde_json::Value` apart, variant by variant, into a tree of
/// this library. The members of an object are taken from `serde_json`'s
/// `Map::into_iter`, in the order in which it hands them out.
#[verifier::external_body]
pub(crate) fn lift(value: serde_json::Value) -> (r: Json)
    ensures
        r@ == value_tree(value),
{
    match value {
        serde_json::Value::Null => Json::Null,
        serde_json::Value::Bool(b) => Json::Bool(b),
        serde_json::Value::Number(n) => Json::Number(n),
        serde_json::Value::String(s) => Json::String(s),
        serde_json::Value::Array(a) => Json::Array(a.into_iter().map(lift).collect()),
        serde_json::Value::Object(o) => Json::Object(
            o.into_iter().map(|(k, v)| (k, lift(v))).collect(),
        ),
    }
}

/// Builds a `serde_json::Value` from a tree of this library, variant by
/// variant. The members of an object are collected into `serde_json`'s
/// `Map` in their order.
#[verifier::external_body]
fn lower(tree: &Json) -> (r: serde_json::Value)
    ensures
        r == tree_value(tree@),
{
    match tree {
        Json::Null => serde_json::Value::Null,
        Json::Bool(b) => serde_json::Value::Bool(*b),
        Json::Number(n) => serde_json::Value::Number(n.clone()),
        Json::String(s) => serde_json::Value::String(s.clone()),
        Json::Array(a) => serde_json::Value::Array(a.iter().map(lower).collect()),
        Json::Object(o) => serde_json::Value::Object(
            o.iter().map(|(k, v)| (k.clone(), lower(v))).collect(),
        ),
    }
}

/// The tree that a JSON text stands for; `None` where the text is not one
/// JSON value.
pub open spec fn parsed(text: Seq<char>) -> Option<JsonValue> {
    match text_read(text) {
        Ok(value) => Some(value_tree(value)),
        Err(_) => None,
    }
}

/// What `serde_json` says of a text that is not one JSON value.
pub open spec fn text_refusal(text: Seq<char>) -> Seq<char> {
    match text_read(text) {
        Ok(_) => Seq::empty(),
        Err(refusal) => refusal,
    }
}

/// The JSON text of a tree; `None` where `serde_json` refuses to write it.
pub open spec fn printed(tree: JsonValue) -> Option<Seq<char>> {
    value_text(tree_value(tree))
}

/// The JSON text of a tree, laid out for readers.
pub open spec fn printed_pretty(tree: JsonValue) -> Option<Seq<char>> {
    value_pretty_text(tree_value(tree))
}

/// The model of an optional tree.
pub open spec fn opt_json(o: Option<Json>) -> Option<JsonValue> {
    match o {
        Some(j) => Some(j@),
        None => None,
    }
}

impl Json {
    /// Reads one JSON value from a text. Where the text is not one JSON
    /// value, the error says in words why. A key that an object of the text
    /// gives twice is no error: `serde_json` keeps the last value of it, and
    /// so does every reader of the tree.
    pub fn parse(text: &str) -> (r: Result<Json, String>)
        ensures
            tree_view(r) == read_json_text(text@),
    {
        match read_value(text) {
            Ok(value) => Ok(lift(value)),
            Err(refusal) => Err(refusal),
        }
    }

    /// Writes the value as JSON text.
    pub fn to_text(&self) -> (r: Option<String>)
        ensures
            crate::text::opt_text(r) == printed(self@),
    {
        let value = lower(self);
        write_value(&value)
    }

    /// Writes the value as JSON text that is laid out for readers.
    pub fn to_pretty_text(&self) -> (r: Option<String>)
        ensures
            crate::text::opt_text(r) == printed_pretty(self@),
    {
        let value = lower(self);
        write_value_pretty(&value)
    }

    /// A JSON string.
    pub fn string(s: &str) -> (r: Json)
        ensures
            r@ == JsonValue::String(s@),
    {
        Json::String(s.to_owned())
    }

    /// The JSON number of an `i64`.
    pub fn from_i64(i: i64) -> (r: Json)
        ensures
            r@ == JsonValue::Number(i64_number(i)),
            number_i64(i64_number(i)) == Some(i),
    {
        Json::Number(number_from_i64(i))
    }

    /// The JSON number of a `u64`.
    pub fn from_u64(u: u64) -> (r: Json)
        ensures
            r@ == JsonValue::Number(u64_number(u)),
            number_u64(u64_number(u)) == Some(u),
    {
        Json::Number(number_from_u64(u))
    }

    /// An object without members.
    pub fn empty_object() -> (r: Json)
        ensures
            r@ == JsonValue::Object(Seq::empty()),
    {
        let members: Vec<(String, Json)> = Vec::new();
        proof {
            lemma_object_view(members);
            assert(members_view(members@) =~= Seq::empty());
        }
        Json::Object(members)
    }

    /// Whether the value is `null`.
    pub fn is_null(&self) -> (r: bool)
        ensures
            r == (self@ is Null),
    {
        match self {
            Json::Null => true,
            _ => false,
        }
    }

    /// The text of a JSON string.
    pub fn as_str(&self) -> (r: Option<&str>)
        ensures
            match self@ {
                JsonValue::String(s) => r matches Some(t) && t@ == s,
                _ => r is None,
            },
    {
        match self {
            Json::String(s) => Some(s.as_str()),
            _ => None,
        }
    }

    /// The truth value of a JSON boolean.
    pub fn as_bool(&self) -> (r: Option<bool>)
        ensures
            r == match self@ {
                JsonValue::Bool(b) => Some(b),
                _ => None,
            },
    {
        match self {
            Json::Bool(b) => Some(*b),
            _ => None,
        }
    }

    /// The value of a JSON number that is an integer and fits an `i64`.
    pub fn as_i64(&self) -> (r: Option<i64>)
        ensures
            r == json_i64(self@),
    {
        match self {
            Json::Number(n) => number_as_i64(n),
            _ => None,
        }
    }

    /// The value of a JSON number that is an integer and not negative.
    pub fn as_u64(&self) -> (r: Option<u64>)
        ensures
            r == json_u64(self@),
    {
        match self {
            Json::Number(n) => number_as_u64(n),
            _ => None,
        }
    }

    /// The items of a JSON array.
    pub fn as_array(&self) -> (r: Option<&Vec<Json>>)
        ensures
            match self@ {
                JsonValue::Array(items) => r matches Some(v) && items_view(v@) == items,
                _ => r is None,
            },
    {
        match self {
            Json::Array(items) => {
                proof {
                    lemma_array_view(*items);
                }
                Some(items)
            },
            _ => None,
        }
    }

    /// The members of a JSON object.
    pub fn as_object(&self) -> (r: Option<&Vec<(String, Json)>>)
        ensures
            match self@ {
                JsonValue::Object(members) => r matches Some(v) && members_view(v@) == members,
                _ => r is None,
            },
    {
        match self {
            Json::Object(members) => {
                proof {
                    lemma_object_view(*members);
                }
                Some(members)
            },
            _ => None,
        }
    }

    /// The member of an object under `key`.
    pub fn get(&self, key: &str) -> (r: Option<&Json>)
        ensures
            match r {
                Some(j) => member(self@, key@) == Some(j@),
                None => member(self@, key@) is None,
            },
    {
        match self {
            Json::Object(members) => {
                proof {
                    lemma_object_view(*members);
                }
                find_member(members, key)
            },
            _ => None,
        }
    }

    /// A copy of the value.
    pub fn duplicate(&self) -> (r: Json)
        ensures
            r@ == self@,
        decreases self,
    {
        match self {
            Json::Null => Json::Null,
            Json::Bool(b) => Json::Bool(*b),
            Json::Number(n) => Json::Number(n.clone()),
            Json::String(s) => Json::String(s.clone()),
            Json::Array(items) => {
                let mut out: Vec<Json> = Vec::new();
                let mut i: usize = 0;
                while i < items.len()
                    invariant
                        i <= items.len(),
                        out.len() == i,
                        forall|k: int| 0 <= k < i ==> out[k]@ == items[k]@,
                        *self is Array && self->Array_0 == *items,
                    decreases items.len() - i,
                {
                    proof {
                        vstd::std_specs::vec::axiom_vec_index_decreases(*items, i as int);
                    }
                    out.push(items[i].duplicate());
                    i = i + 1;
                }
                proof {
                    lemma_array_view(*items);
                    lemma_array_view(out);
                    assert(items_view(out@) =~= items_view(items@));
                }
                Json::Array(out)
            },
            Json::Object(members) => {
                let mut out: Vec<(String, Json)> = Vec::new();
                let mut i: usize = 0;
                while i < members.len()
                    invariant
                        i <= members.len(),
                        out.len() == i,
                        forall|k: int|
                            0 <= k < i ==> out[k].0@ == members[k].0@ && out[k].1@
                                == members[k].1@,
                        *self is Object && self->Object_0 == *members,
                    decreases members.len() - i,
                {
                    proof {
                        vstd::std_specs::vec::axiom_vec_index_decreases(*members, i as int);
                    }
                    let key = members[i].0.clone();
                    let value = members[i].1.duplicate();
                    out.push((key, value));
                    i = i + 1;
                }
                proof {
                    lemma_object_view(*members);
                    lemma_object_view(out);
                    assert(members_view(out@) =~= members_view(members@));
                }
                Json::Object(out)
            },
        }
    }
}

/// The `i64` that a tree stands for.
pub open spec fn json_i64(value: JsonValue) -> Option<i64> {
    match value {
        JsonValue::Number(n) => number_i64(n),
        _ => None,
    }
}

/// The `u64` that a tree stands for.
pub open spec fn json_u64(value: JsonValue) -> Option<u64> {
    match value {
        JsonValue::Number(n) => number_u64(n),
        _ => None,
    }
}

/// The last member of `members` whose key is `key`.
pub fn find_member<'a>(members: &'a Vec<(String, Json)>, key: &str) -> (r: Option<&'a Json>)
    ensures
        match r {
            Some(j) => lookup(members_view(members@), key@) == Some(j@),
            None => lookup(members_view(members@), key@) is None,
        },
{
    let ghost all = members_view(members@);
    let mut i: usize = members.len();
    proof {
        assert(all.take(i as int) =~= all);
    }
    while i > 0
        invariant
            i <= members.len(),
            all == members_view(members@),
            lookup(all, key@) == lookup(all.take(i as int), key@),
        decreases i,
    {
        proof {
            assert(all.take(i as int).drop_last() =~= all.take(i as int - 1));
            assert(all.take(i as int).last() == all[i as int - 1]);
        }
        i = i - 1;
        if text_eq(members[i].0.as_str(), key) {
            return Some(&members[i].1);
        }
    }
    proof {
        assert(all.take(0) =~= Seq::empty());
    }
    None
}

/// Adds a member at the end of an object's members.
pub fn put(members: &mut Vec<(String, Json)>, key: &str, value: Json)
    ensures
        members_view(final(members)@) == members_view(old(members)@).push((key@, value@)),
{
    members.push((key.to_owned(), value));
    assert(members_view(members@) =~= members_view(old(members)@).push((key@, value@)));
}

// ---------------------------------------------------------------------
// Reading and writing the members of an object
// ---------------------------------------------------------------------

/// The members of a JSON object, in order.
pub type Members = Seq<(Seq<char>, JsonValue)>;

/// `members` with a string member added, where there is a string.
#[verifier::opaque]
pub open spec fn with_opt_text(members: Members, key: Seq<char>, value: Option<Seq<char>>) -> Members {
    match value {
        Some(s) => members.push((key, JsonValue::String(s))),
        None => members,
    }
}

/// `members` with a member added, where there is a value.
#[verifier::opaque]
pub open spec fn with_opt(members: Members, key: Seq<char>, value: Option<JsonValue>) -> Members {
    match value {
        Some(v) => members.push((key, v)),
        None => members,
    }
}

/// Looking a key up after a string member was added, where there was a
/// string.
pub broadcast proof fn lemma_lookup_with_opt_text(
    members: Members,
    key: Seq<char>,
    value: Option<Seq<char>>,
    wanted: Seq<char>,
)
    ensures
        #[trigger] lookup(with_opt_text(members, key, value), wanted) == if key == wanted
            && value is Some {
            Some(JsonValue::String(value.unwrap()))
        } else {
            lookup(members, wanted)
        },
{
    reveal(with_opt_text);
    if value is Some {
        lemma_lookup_push(members, key, JsonValue::String(value.unwrap()), wanted);
    }
}

/// Looking a key up after a member was added, where there was a value.
pub broadcast proof fn lemma_lookup_with_opt(
    members: Members,
    key: Seq<char>,
    value: Option<JsonValue>,
    wanted: Seq<char>,
)
    ensures
        #[trigger] lookup(with_opt(members, key, value), wanted) == if key == wanted
            && value is Some {
            value
        } else {
            lookup(members, wanted)
        },
{
    reveal(with_opt);
    if value is Some {
        lemma_lookup_push(members, key, value.unwrap(), wanted);
    }
}

/// The value under `key`, where a member with that key is there and is not
/// `null`.
pub open spec fn read_opt(members: Members, key: Seq<char>) -> Option<JsonValue> {
    match lookup(members, key) {
        Some(JsonValue::Null) => None,
        Some(v) => Some(v),
        None => None,
    }
}

/// The string under `key`, which has to be there.
pub open spec fn read_text(members: Members, key: Seq<char>) -> Option<Seq<char>> {
    match lookup(members, key) {
        Some(JsonValue::String(s)) => Some(s),
        _ => None,
    }
}

/// The string under `key`, which may be missing or `null`; the outer `None`
/// stands for a member of another kind.
pub open spec fn read_opt_text(members: Members, key: Seq<char>) -> Option<Option<Seq<char>>> {
    match read_opt(members, key) {
        None => Some(None),
        Some(JsonValue::String(s)) => Some(Some(s)),
        Some(_) => None,
    }
}

/// The truth value under `key`, `false` where no member has that key.
pub open spec fn read_bool_or_false(members: Members, key: Seq<char>) -> Option<bool> {
    match lookup(members, key) {
        None => Some(false),
        Some(JsonValue::Bool(b)) => Some(b),
        Some(_) => None,
    }
}

/// The `i64` under `key`, which has to be there.
pub open spec fn read_i64(members: Members, key: Seq<char>) -> Option<i64> {
    match lookup(members, key) {
        Some(v) => json_i64(v),
        None => None,
    }
}

/// The `u32` that a tree stands for.
pub open spec fn json_u32(value: JsonValue) -> Option<u32> {
    match json_u64(value) {
        Some(v) => if v <= u32::MAX {
            Some(v as u32)
        } else {
            None
        },
        None => None,
    }
}

/// Adds a string member.
pub fn put_text(members: &mut Vec<(String, Json)>, key: &str, value: &str)
    ensures
        members_view(final(members)@) == members_view(old(members)@).push(
            (key@, JsonValue::String(value@)),
        ),
{
    put(members, key, Json::string(value));
}

/// Adds a string member where there is a string.
pub fn put_opt_text(members: &mut Vec<(String, Json)>, key: &str, value: &Option<String>)
    ensures
        members_view(final(members)@) == with_opt_text(
            members_view(old(members)@),
            key@,
            crate::text::opt_text(*value),
        ),
{
    proof {
        reveal(with_opt_text);
    }
    match value {
        Some(s) => put_text(members, key, s.as_str()),
        None => {},
    }
}

/// Adds a member where there is a value.
pub fn put_opt(members: &mut Vec<(String, Json)>, key: &str, value: Option<Json>)
    ensures
        members_view(final(members)@) == with_opt(
            members_view(old(members)@),
            key@,
            opt_json(value),
        ),
{
    proof {
        reveal(with_opt);
    }
    match value {
        Some(v) => put(members, key, v),
        None => {},
    }
}

/// The member under `key`, where it is there and is not `null`.
pub fn get_opt<'a>(members: &'a Vec<(String, Json)>, key: &str) -> (r: Option<&'a Json>)
    ensures
        match r {
            Some(j) => read_opt(members_view(members@), key@) == Some(j@),
            None => read_opt(members_view(members@), key@) is None,
        },
{
    match find_member(members, key) {
        Some(j) => if j.is_null() {
            None
        } else {
            Some(j)
        },
        None => None,
    }
}

/// The string under `key`, which has to be there.
pub fn get_text(members: &Vec<(String, Json)>, key: &str) -> (r: Option<String>)
    ensures
        crate::text::opt_text(r) == read_text(members_view(members@), key@),
{
    match find_member(members, key) {
        Some(j) => match j.as_str() {
            Some(s) => Some(s.to_owned()),
            None => None,
        },
        None => None,
    }
}

/// The string under `key`, which may be missing or `null`.
pub fn get_opt_text(members: &Vec<(String, Json)>, key: &str) -> (r: Option<Option<String>>)
    ensures
        match r {
            Some(o) => read_opt_text(members_view(members@), key@) == Some(
                crate::text::opt_text(o),
            ),
            None => read_opt_text(members_view(members@), key@) is None,
        },
{
    match get_opt(members, key) {
        None => Some(None),
        Some(j) => match j.as_str() {
            Some(s) => Some(Some(s.to_owned())),
            None => None,
        },
    }
}

/// The truth value under `key`, `false` where no member has that key.
pub fn get_bool_or_false(members: &Vec<(String, Json)>, key: &str) -> (r: Option<bool>)
    ensures
        r == read_bool_or_false(members_view(members@), key@),
{
    match find_member(members, key) {
        Some(j) => j.as_bool(),
        None => Some(false),
    }
}

/// The `i64` under `key`, which has to be there.
pub fn get_i64(members: &Vec<(String, Json)>, key: &str) -> (r: Option<i64>)
    ensures
        r == read_i64(members_view(members@), key@),
{
    match find_member(members, key) {
        Some(j) => j.as_i64(),
        None => None,
    }
}

/// `members` with a string member added, where the string is not empty.
#[verifier::opaque]
pub open spec fn with_filled_text(members: Members, key: Seq<char>, value: Seq<char>) -> Members {
    if value.len() == 0 {
        members
    } else {
        members.push((key, JsonValue::String(value)))
    }
}

/// Looking a key up after a string member was added, where the string was
/// not empty.
pub broadcast proof fn lemma_lookup_with_filled_text(
    members: Members,
    key: Seq<char>,
    value: Seq<char>,
    wanted: Seq<char>,
)
    ensures
        #[trigger] lookup(with_filled_text(members, key, value), wanted) == if key == wanted
            && value.len() > 0 {
            Some(JsonValue::String(value))
        } else {
            lookup(members, wanted)
        },
{
    reveal(with_filled_text);
    if value.len() > 0 {
        lemma_lookup_push(members, key, JsonValue::String(value), wanted);
    }
}

/// The string under `key`, empty where no member has that key.
pub open spec fn read_text_or_empty(members: Members, key: Seq<char>) -> Option<Seq<char>> {
    match lookup(members, key) {
        None => Some(Seq::empty()),
        Some(JsonValue::String(s)) => Some(s),
        Some(_) => None,
    }
}

/// The truth value under `key`, `true` where no member has that key.
pub open spec fn read_bool_or_true(members: Members, key: Seq<char>) -> Option<bool> {
    match lookup(members, key) {
        None => Some(true),
        Some(JsonValue::Bool(b)) => Some(b),
        Some(_) => None,
    }
}

/// Adds a string member where the string is not empty.
pub fn put_filled_text(members: &mut Vec<(String, Json)>, key: &str, value: &str)
    ensures
        members_view(final(members)@) == with_filled_text(
            members_view(old(members)@),
            key@,
            value@,
        ),
{
    proof {
        reveal(with_filled_text);
    }
    if value.unicode_len() > 0 {
        put_text(members, key, value);
    }
}

/// The string under `key`, empty where no member has that key.
pub fn get_text_or_empty(members: &Vec<(String, Json)>, key: &str) -> (r: Option<String>)
    ensures
        crate::text::opt_text(r) == read_text_or_empty(members_view(members@), key@),
{
    match find_member(members, key) {
        None => Some(String::new()),
        Some(j) => match j.as_str() {
            Some(s) => Some(s.to_owned()),
            None => None,
        },
    }
}

/// The truth value under `key`, `true` where no member has that key.
pub fn get_bool_or_true(members: &Vec<(String, Json)>, key: &str) -> (r: Option<bool>)
    ensures
        r == read_bool_or_true(members_view(members@), key@),
{
    match find_member(members, key) {
        Some(j) => j.as_bool(),
        None => Some(true),
    }
}

/// The string under `key`, or else under `other`; either may be missing or
/// `null`.
pub open spec fn read_opt_text_either(members: Members, key: Seq<char>, other: Seq<char>) -> Option<
    Option<Seq<char>>,
> {
    match read_opt_text(members, key) {
        Some(None) => read_opt_text(members, other),
        found => found,
    }
}

/// The string under `key`, or else under `other`.
pub fn get_opt_text_either(members: &Vec<(String, Json)>, key: &str, other: &str) -> (r: Option<
    Option<String>,
>)
    ensures
        match r {
            Some(o) => read_opt_text_either(members_view(members@), key@, other@) == Some(
                crate::text::opt_text(o),
            ),
            None => read_opt_text_either(members_view(members@), key@, other@) is None,
        },
{
    match get_opt_text(members, key) {
        Some(None) => get_opt_text(members, other),
        found => found,
    }
}

/// The model of a tree that may have failed to be read.
pub open spec fn tree_view(r: Result<Json, String>) -> Result<JsonValue, Seq<char>> {
    match r {
        Ok(j) => Ok(j@),
        Err(refusal) => Err(refusal@),
    }
}

/// What reading a text as JSON gives: the tree, or what `serde_json` says
/// of the text.
pub open spec fn read_json_text(text: Seq<char>) -> Result<JsonValue, Seq<char>> {
    match parsed(text) {
        Some(j) => Ok(j),
        None => Err(text_refusal(text)),
    }
}

/// The string that an object holds under `key`; `None` where it holds none
/// there, or where the value is no object.
pub open spec fn text_at(value: JsonValue, key: Seq<char>) -> Option<Seq<char>> {
    match member(value, key) {
        Some(JsonValue::String(s)) => Some(s),
        _ => None,
    }
}

/// The string that an object holds under `key`, or `default`.
pub open spec fn text_or(value: JsonValue, key: Seq<char>, default: Seq<char>) -> Seq<char> {
    match text_at(value, key) {
        Some(s) => s,
        None => default,
    }
}

/// The items of the array that an object holds under `key`.
pub open spec fn items_at(value: JsonValue, key: Seq<char>) -> Option<Seq<JsonValue>> {
    match member(value, key) {
        Some(JsonValue::Array(items)) => Some(items),
        _ => None,
    }
}

/// The `i64` that an object holds under `key`.
pub open spec fn i64_at(value: JsonValue, key: Seq<char>) -> Option<i64> {
    match member(value, key) {
        Some(n) => json_i64(n),
        None => None,
    }
}

impl Json {
    /// The string that an object holds under `key`.
    pub fn str_at(&self, key: &str) -> (r: Option<&str>)
        ensures
            match r {
                Some(s) => text_at(self@, key@) == Some(s@),
                None => text_at(self@, key@) is None,
            },
    {
        match self.get(key) {
            Some(j) => j.as_str(),
            None => None,
        }
    }

    /// The string that an object holds under `key`, or `default`.
    pub fn str_or<'a>(&'a self, key: &str, default: &'a str) -> (r: &'a str)
        ensures
            r@ == text_or(self@, key@, default@),
    {
        match self.str_at(key) {
            Some(s) => s,
            None => default,
        }
    }

    /// The items of the array that an object holds under `key`.
    pub fn array_at(&self, key: &str) -> (r: Option<&Vec<Json>>)
        ensures
            match r {
                Some(items) => items_at(self@, key@) == Some(items_view(items@)),
                None => items_at(self@, key@) is None,
            },
    {
        match self.get(key) {
            Some(j) => j.as_array(),
            None => None,
        }
    }

    /// The `i64` that an object holds under `key`.
    pub fn int_at(&self, key: &str) -> (r: Option<i64>)
        ensures
            r == i64_at(self@, key@),
    {
        match self.get(key) {
            Some(j) => j.as_i64(),
            None => None,
        }
    }
}

} // verus!
