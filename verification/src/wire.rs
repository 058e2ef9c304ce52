//! The wire form of the library's data types: how each is written as a JSON
//! value and read back, and the law that ties the two together.

use crate::json::{
    find_member, get_opt, i64_number, items_view, json_i64, json_u32, json_u64, lemma_array_view,
    lemma_lookup_empty, lemma_lookup_push, lemma_lookup_with_filled_text, lemma_lookup_with_opt,
    lemma_lookup_with_opt_text, lookup, members_view, number_i64, number_u64, put, read_opt,
    u64_number, Json, JsonValue, Members,
};
use crate::model::{opt_view, seq_view};
use vstd::prelude::*;

verus! {

/// A type with a JSON form.
pub trait Wire: View + Sized {
    /// The JSON form of a value.
    spec fn encode(v: Self::V) -> JsonValue;

    /// The value that a JSON form stands for; `None` where it stands for
    /// none.
    spec fn decode(j: JsonValue) -> Option<Self::V>;

    /// The values that come back unchanged after they were written and read
    /// again.
    spec fn survives(v: Self::V) -> bool;

    /// Writes the value as JSON.
    fn to_json(&self) -> (j: Json)
        ensures
            j@ == Self::encode(self@),
    ;

    /// Reads a value from JSON.
    fn from_json(j: &Json) -> (r: Option<Self>)
        ensures
            opt_view(r) == Self::decode(j@),
    ;

    /// Reading back what was written gives the value that was written.
    proof fn lemma_round_trip(v: Self::V)
        requires
            Self::survives(v),
        ensures
            Self::decode(Self::encode(v)) == Some(v),
    ;
}

impl Wire for String {
    open spec fn encode(v: Seq<char>) -> JsonValue {
        JsonValue::String(v)
    }

    open spec fn decode(j: JsonValue) -> Option<Seq<char>> {
        match j {
            JsonValue::String(s) => Some(s),
            _ => None,
        }
    }

    open spec fn survives(v: Seq<char>) -> bool {
        true
    }

    fn to_json(&self) -> (j: Json) {
        Json::string(self.as_str())
    }

    fn from_json(j: &Json) -> (r: Option<String>) {
        match j.as_str() {
            Some(s) => Some(s.to_owned()),
            None => None,
        }
    }

    proof fn lemma_round_trip(v: Seq<char>) {
    }
}

impl Wire for Json {
    open spec fn encode(v: JsonValue) -> JsonValue {
        v
    }

    open spec fn decode(j: JsonValue) -> Option<JsonValue> {
        Some(j)
    }

    open spec fn survives(v: JsonValue) -> bool {
        true
    }

    fn to_json(&self) -> (j: Json) {
        self.duplicate()
    }

    fn from_json(j: &Json) -> (r: Option<Json>) {
        Some(j.duplicate())
    }

    proof fn lemma_round_trip(v: JsonValue) {
    }
}

impl Wire for bool {
    open spec fn encode(v: bool) -> JsonValue {
        JsonValue::Bool(v)
    }

    open spec fn decode(j: JsonValue) -> Option<bool> {
        match j {
            JsonValue::Bool(b) => Some(b),
            _ => None,
        }
    }

    open spec fn survives(v: bool) -> bool {
        true
    }

    fn to_json(&self) -> (j: Json) {
        Json::Bool(*self)
    }

    fn from_json(j: &Json) -> (r: Option<bool>) {
        j.as_bool()
    }

    proof fn lemma_round_trip(v: bool) {
    }
}

impl Wire for i64 {
    open spec fn encode(v: i64) -> JsonValue {
        JsonValue::Number(i64_number(v))
    }

    open spec fn decode(j: JsonValue) -> Option<i64> {
        json_i64(j)
    }

    /// An integer survives where its JSON number gives it back, which
    /// [`Json::from_i64`] says of every `i64`.
    open spec fn survives(v: i64) -> bool {
        number_i64(i64_number(v)) == Some(v)
    }

    fn to_json(&self) -> (j: Json) {
        Json::from_i64(*self)
    }

    fn from_json(j: &Json) -> (r: Option<i64>) {
        j.as_i64()
    }

    proof fn lemma_round_trip(v: i64) {
    }
}

impl Wire for u64 {
    open spec fn encode(v: u64) -> JsonValue {
        JsonValue::Number(u64_number(v))
    }

    open spec fn decode(j: JsonValue) -> Option<u64> {
        json_u64(j)
    }

    /// An integer survives where its JSON number gives it back, which
    /// [`Json::from_u64`] says of every `u64`.
    open spec fn survives(v: u64) -> bool {
        number_u64(u64_number(v)) == Some(v)
    }

    fn to_json(&self) -> (j: Json) {
        Json::from_u64(*self)
    }

    fn from_json(j: &Json) -> (r: Option<u64>) {
        j.as_u64()
    }

    proof fn lemma_round_trip(v: u64) {
    }
}

impl Wire for u32 {
    open spec fn encode(v: u32) -> JsonValue {
        JsonValue::Number(u64_number(v as u64))
    }

    open spec fn decode(j: JsonValue) -> Option<u32> {
        json_u32(j)
    }

    /// An integer survives where its JSON number gives it back, which
    /// [`Json::from_u64`] says of every `u64`.
    open spec fn survives(v: u32) -> bool {
        number_u64(u64_number(v as u64)) == Some(v as u64)
    }

    fn to_json(&self) -> (j: Json) {
        Json::from_u64(*self as u64)
    }

    fn from_json(j: &Json) -> (r: Option<u32>) {
        match j.as_u64() {
            Some(v) => if v <= 0xffff_ffff {
                Some(v as u32)
            } else {
                None
            },
            None => None,
        }
    }

    proof fn lemma_round_trip(v: u32) {
    }
}

/// The JSON forms of the values of a list.
pub open spec fn encode_each<T: Wire>(values: Seq<T::V>) -> Seq<JsonValue> {
    Seq::new(values.len(), |i: int| T::encode(values[i]))
}

/// The values that the items of an array stand for; `None` where one of
/// them stands for none.
pub open spec fn decode_each<T: Wire>(items: Seq<JsonValue>) -> Option<Seq<T::V>> {
    if forall|i: int| 0 <= i < items.len() ==> (#[trigger] T::decode(items[i])) is Some {
        Some(Seq::new(items.len(), |i: int| T::decode(items[i]).unwrap()))
    } else {
        None
    }
}

/// Whether every value of a list survives being written and read again.
pub open spec fn each_survives<T: Wire>(values: Seq<T::V>) -> bool {
    forall|i: int| 0 <= i < values.len() ==> #[trigger] T::survives(values[i])
}

/// Reading back a list that was written gives the list that was written.
pub proof fn lemma_each_round_trip<T: Wire>(values: Seq<T::V>)
    requires
        each_survives::<T>(values),
    ensures
        decode_each::<T>(encode_each::<T>(values)) == Some(values),
{
    let items = encode_each::<T>(values);
    assert forall|i: int| 0 <= i < items.len() implies (#[trigger] T::decode(items[i])) == Some(
        values[i],
    ) by {
        assert(T::survives(values[i]));
        T::lemma_round_trip(values[i]);
    }
    assert(decode_each::<T>(items).unwrap() =~= values);
}

/// The models of an optional list.
pub open spec fn opt_seq_view<T: View>(o: Option<Vec<T>>) -> Option<Seq<T::V>> {
    match o {
        Some(v) => Some(seq_view(v@)),
        None => None,
    }
}

/// Writes a list as a JSON array.
pub fn list_to_json<T: Wire>(values: &Vec<T>) -> (r: Json)
    ensures
        r@ == JsonValue::Array(encode_each::<T>(seq_view(values@))),
{
    let mut items: Vec<Json> = Vec::new();
    let mut i: usize = 0;
    while i < values.len()
        invariant
            i <= values.len(),
            items.len() == i,
            forall|k: int| 0 <= k < i ==> items[k]@ == T::encode(#[trigger] values[k]@),
        decreases values.len() - i,
    {
        items.push(values[i].to_json());
        i = i + 1;
    }
    proof {
        lemma_array_view(items);
        assert(items_view(items@) =~= encode_each::<T>(seq_view(values@)));
    }
    Json::Array(items)
}

/// Reads a list from the items of a JSON array.
pub fn list_from_json<T: Wire>(items: &[Json]) -> (r: Option<Vec<T>>)
    ensures
        opt_seq_view(r) == decode_each::<T>(items_view(items@)),
{
    let mut values: Vec<T> = Vec::new();
    let mut i: usize = 0;
    while i < items.len()
        invariant
            i <= items.len(),
            values.len() == i,
            forall|k: int|
                0 <= k < i ==> (#[trigger] T::decode(items_view(items@)[k])) == Some(values[k]@),
        decreases items.len() - i,
    {
        match T::from_json(&items[i]) {
            Some(v) => {
                values.push(v);
            },
            None => {
                assert(T::decode(items_view(items@)[i as int]) is None);
                return None;
            },
        }
        i = i + 1;
    }
    proof {
        assert(decode_each::<T>(items_view(items@)).unwrap() =~= seq_view(values@));
    }
    Some(values)
}

// ---------------------------------------------------------------------
// Members that hold values with a wire form
// ---------------------------------------------------------------------

/// The value under `key`, which has to be there.
pub open spec fn read_value<T: Wire>(members: Members, key: Seq<char>) -> Option<T::V> {
    match lookup(members, key) {
        Some(j) => T::decode(j),
        None => None,
    }
}

/// The value under `key`, which may be missing or `null`; the outer `None`
/// stands for a member that is no such value.
pub open spec fn read_opt_value<T: Wire>(members: Members, key: Seq<char>) -> Option<
    Option<T::V>,
> {
    match read_opt(members, key) {
        None => Some(None),
        Some(j) => match T::decode(j) {
            Some(v) => Some(Some(v)),
            None => None,
        },
    }
}

/// The list under `key`, which has to be there.
pub open spec fn read_list<T: Wire>(members: Members, key: Seq<char>) -> Option<Seq<T::V>> {
    match lookup(members, key) {
        Some(JsonValue::Array(items)) => decode_each::<T>(items),
        _ => None,
    }
}

/// The list under `key`, empty where no member has that key.
pub open spec fn read_list_or_empty<T: Wire>(members: Members, key: Seq<char>) -> Option<
    Seq<T::V>,
> {
    match lookup(members, key) {
        None => Some(Seq::empty()),
        Some(JsonValue::Array(items)) => decode_each::<T>(items),
        Some(_) => None,
    }
}

/// `members` with a value added.
pub open spec fn with_value<T: Wire>(members: Members, key: Seq<char>, v: T::V) -> Members {
    members.push((key, T::encode(v)))
}

/// `members` with a value added, where there is one.
#[verifier::opaque]
pub open spec fn with_opt_value<T: Wire>(members: Members, key: Seq<char>, v: Option<T::V>) -> Members {
    match v {
        Some(x) => members.push((key, T::encode(x))),
        None => members,
    }
}

/// `members` with a list added.
pub open spec fn with_list<T: Wire>(members: Members, key: Seq<char>, values: Seq<T::V>) -> Members {
    members.push((key, JsonValue::Array(encode_each::<T>(values))))
}

/// `members` with a list added, where the list is not empty.
#[verifier::opaque]
pub open spec fn with_filled_list<T: Wire>(members: Members, key: Seq<char>, values: Seq<T::V>) -> Members {
    if values.len() == 0 {
        members
    } else {
        members.push((key, JsonValue::Array(encode_each::<T>(values))))
    }
}

/// Looking a key up after a value was added, where there was one.
pub broadcast proof fn lemma_lookup_with_opt_value<T: Wire>(
    members: Members,
    key: Seq<char>,
    value: Option<T::V>,
    wanted: Seq<char>,
)
    ensures
        #[trigger] lookup(with_opt_value::<T>(members, key, value), wanted) == if key == wanted
            && value is Some {
            Some(T::encode(value.unwrap()))
        } else {
            lookup(members, wanted)
        },
{
    reveal(with_opt_value);
    if value is Some {
        lemma_lookup_push(members, key, T::encode(value.unwrap()), wanted);
    }
}

/// Looking a key up after a list was added, where it was not empty.
pub broadcast proof fn lemma_lookup_with_filled_list<T: Wire>(
    members: Members,
    key: Seq<char>,
    values: Seq<T::V>,
    wanted: Seq<char>,
)
    ensures
        #[trigger] lookup(with_filled_list::<T>(members, key, values), wanted) == if key == wanted
            && values.len() > 0 {
            Some(JsonValue::Array(encode_each::<T>(values)))
        } else {
            lookup(members, wanted)
        },
{
    reveal(with_filled_list);
    if values.len() > 0 {
        lemma_lookup_push(members, key, JsonValue::Array(encode_each::<T>(values)), wanted);
    }
}

/// What is known of looking a key up in members that were put together with
/// the functions of this library.
pub broadcast group group_lookup {
    lemma_lookup_push,
    lemma_lookup_empty,
    lemma_lookup_with_opt_text,
    lemma_lookup_with_opt,
    lemma_lookup_with_filled_text,
    lemma_lookup_with_opt_value,
    lemma_lookup_with_filled_list,
}

/// Adds a value.
pub fn put_value<T: Wire>(members: &mut Vec<(String, Json)>, key: &str, value: &T)
    ensures
        members_view(final(members)@) == with_value::<T>(members_view(old(members)@), key@, value@),
{
    put(members, key, value.to_json());
}

/// Adds a value where there is one.
pub fn put_opt_value<T: Wire>(members: &mut Vec<(String, Json)>, key: &str, value: &Option<T>)
    ensures
        members_view(final(members)@) == with_opt_value::<T>(
            members_view(old(members)@),
            key@,
            opt_view(*value),
        ),
{
    proof {
        reveal(with_opt_value);
    }
    match value {
        Some(v) => put(members, key, v.to_json()),
        None => {},
    }
}

/// Adds a list.
pub fn put_list<T: Wire>(members: &mut Vec<(String, Json)>, key: &str, values: &Vec<T>)
    ensures
        members_view(final(members)@) == with_list::<T>(
            members_view(old(members)@),
            key@,
            seq_view(values@),
        ),
{
    put(members, key, list_to_json(values));
}

/// Adds a list where it is not empty.
pub fn put_filled_list<T: Wire>(members: &mut Vec<(String, Json)>, key: &str, values: &Vec<T>)
    ensures
        members_view(final(members)@) == with_filled_list::<T>(
            members_view(old(members)@),
            key@,
            seq_view(values@),
        ),
{
    proof {
        reveal(with_filled_list);
    }
    if values.len() > 0 {
        put(members, key, list_to_json(values));
    }
}

/// The value under `key`, which has to be there.
pub fn get_value<T: Wire>(members: &Vec<(String, Json)>, key: &str) -> (r: Option<T>)
    ensures
        opt_view(r) == read_value::<T>(members_view(members@), key@),
{
    match find_member(members, key) {
        Some(j) => T::from_json(j),
        None => None,
    }
}

/// The value under `key`, which may be missing or `null`.
pub fn get_opt_value<T: Wire>(members: &Vec<(String, Json)>, key: &str) -> (r: Option<Option<T>>)
    ensures
        match r {
            Some(o) => read_opt_value::<T>(members_view(members@), key@) == Some(opt_view(o)),
            None => read_opt_value::<T>(members_view(members@), key@) is None,
        },
{
    match get_opt(members, key) {
        None => Some(None),
        Some(j) => match T::from_json(j) {
            Some(v) => Some(Some(v)),
            None => None,
        },
    }
}

/// The list under `key`, which has to be there.
pub fn get_list<T: Wire>(members: &Vec<(String, Json)>, key: &str) -> (r: Option<Vec<T>>)
    ensures
        opt_seq_view(r) == read_list::<T>(members_view(members@), key@),
{
    match find_member(members, key) {
        Some(j) => match j.as_array() {
            Some(items) => list_from_json(items.as_slice()),
            None => None,
        },
        None => None,
    }
}

/// The list under `key`, empty where no member has that key.
pub fn get_list_or_empty<T: Wire>(members: &Vec<(String, Json)>, key: &str) -> (r: Option<Vec<T>>)
    ensures
        opt_seq_view(r) == read_list_or_empty::<T>(members_view(members@), key@),
{
    match find_member(members, key) {
        None => {
            let values: Vec<T> = Vec::new();
            assert(seq_view(values@) =~= Seq::empty());
            Some(values)
        },
        Some(j) => match j.as_array() {
            Some(items) => list_from_json(items.as_slice()),
            None => None,
        },
    }
}

/// The value under `key`, or `default` where no member has that key.
pub open spec fn read_value_or<T: Wire>(members: Members, key: Seq<char>, default: T::V) -> Option<
    T::V,
> {
    match lookup(members, key) {
        None => Some(default),
        Some(j) => T::decode(j),
    }
}

/// The value under `key`, or `default` where no member has that key.
pub fn get_value_or<T: Wire>(members: &Vec<(String, Json)>, key: &str, default: T) -> (r: Option<T>)
    ensures
        opt_view(r) == read_value_or::<T>(members_view(members@), key@, default@),
{
    match find_member(members, key) {
        Some(j) => T::from_json(j),
        None => Some(default),
    }
}

} // verus!
