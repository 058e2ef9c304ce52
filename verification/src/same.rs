//! When two JSON values are the same: the order of an object's members is
//! of no account, and of members that share one key only the last counts.

use crate::json::{
    find_member, items_view, lemma_array_view, lemma_object_view, lookup, members_view, Json,
    JsonValue,
};
use crate::text::text_eq;
use vstd::prelude::*;
use vstd::std_specs::cmp::PartialEqSpecImpl;

verus! {

/// What `serde_json` says when two numbers are compared with `==`.
pub uninterp spec fn number_same(a: serde_json::Number, b: serde_json::Number) -> bool;

/// `PartialEq::eq` of `serde_json::Number`. A number is equal to itself:
/// `serde_json` holds no number that is not finite.
#[verifier::external_body]
fn number_eq(a: &serde_json::Number, b: &serde_json::Number) -> (r: bool)
    ensures
        r == number_same(*a, *b),
        *a == *b ==> r,
{
    a == b
}

/// Whether the member at `i` is the one that counts for its key: no later
/// member has that key.
pub open spec fn counts(members: Seq<(Seq<char>, JsonValue)>, i: int) -> bool {
    forall|k: int| i < k < members.len() ==> (#[trigger] members[k]).0 != members[i].0
}

/// Whether two JSON values are the same. Two objects are the same where
/// they hold the same keys, and under each key values that are the same.
pub open spec fn same_json(a: JsonValue, b: JsonValue) -> bool
    decreases a,
{
    match (a, b) {
        (JsonValue::Null, JsonValue::Null) => true,
        (JsonValue::Bool(x), JsonValue::Bool(y)) => x == y,
        (JsonValue::Number(x), JsonValue::Number(y)) => x == y || number_same(x, y),
        (JsonValue::String(x), JsonValue::String(y)) => x == y,
        (JsonValue::Array(x), JsonValue::Array(y)) => x.len() == y.len() && forall|i: int|
            0 <= i < x.len() ==> same_json(#[trigger] x[i], y[i]),
        (JsonValue::Object(x), JsonValue::Object(y)) => {
            &&& forall|i: int|
                0 <= i < x.len() && counts(x, i) ==> match lookup(y, (#[trigger] x[i]).0) {
                    Some(other) => same_json(x[i].1, other),
                    None => false,
                }
            &&& forall|j: int| 0 <= j < y.len() ==> lookup(x, (#[trigger] y[j]).0) is Some
        },
        _ => false,
    }
}

/// A lookup finds the member that counts for its key.
pub proof fn lemma_lookup_finds_what_counts(members: Seq<(Seq<char>, JsonValue)>, i: int)
    requires
        0 <= i < members.len(),
        counts(members, i),
    ensures
        lookup(members, members[i].0) == Some(members[i].1),
    decreases members.len(),
{
    if i < members.len() - 1 {
        let shorter = members.drop_last();
        assert(members[members.len() - 1].0 != members[i].0);
        assert forall|k: int| i < k < shorter.len() implies (#[trigger] shorter[k]).0
            != shorter[i].0 by {
            assert(members[k].0 != members[i].0);
        }
        lemma_lookup_finds_what_counts(shorter, i);
    }
}

/// A lookup finds every key that occurs.
pub proof fn lemma_lookup_finds_keys(members: Seq<(Seq<char>, JsonValue)>, j: int)
    requires
        0 <= j < members.len(),
    ensures
        lookup(members, members[j].0) is Some,
    decreases members.len(),
{
    if j < members.len() - 1 && members.last().0 != members[j].0 {
        lemma_lookup_finds_keys(members.drop_last(), j);
    }
}

/// Every JSON value is the same as itself.
pub proof fn lemma_same_is_reflexive(a: JsonValue)
    ensures
        same_json(a, a),
    decreases a,
{
    match a {
        JsonValue::Array(x) => {
            assert forall|i: int| 0 <= i < x.len() implies same_json(#[trigger] x[i], x[i]) by {
                lemma_same_is_reflexive(x[i]);
            }
        },
        JsonValue::Object(x) => {
            lemma_same_whatever_the_order(x, x);
        },
        _ => {},
    }
}

/// The order of an object's members is of no account, nor is a member that
/// a later one with the same key has replaced: two objects that hold the
/// same value under every key are the same.
pub proof fn lemma_same_whatever_the_order(
    x: Seq<(Seq<char>, JsonValue)>,
    y: Seq<(Seq<char>, JsonValue)>,
)
    requires
        forall|key: Seq<char>| lookup(x, key) == lookup(y, key),
    ensures
        same_json(JsonValue::Object(x), JsonValue::Object(y)),
    decreases x,
{
    assert forall|i: int| 0 <= i < x.len() && counts(x, i) implies match lookup(
        y,
        (#[trigger] x[i]).0,
    ) {
        Some(other) => same_json(x[i].1, other),
        None => false,
    } by {
        lemma_lookup_finds_what_counts(x, i);
        lemma_same_is_reflexive(x[i].1);
    }
    assert forall|j: int| 0 <= j < y.len() implies lookup(x, (#[trigger] y[j]).0) is Some by {
        lemma_lookup_finds_keys(y, j);
    }
}

impl Json {
    /// Whether this value is the same as `other`, whatever the order of the
    /// members of their objects.
    pub fn same(&self, other: &Json) -> (r: bool)
        ensures
            r == same_json(self@, other@),
        decreases self,
    {
        match (self, other) {
            (Json::Null, Json::Null) => true,
            (Json::Bool(a), Json::Bool(b)) => *a == *b,
            (Json::Number(a), Json::Number(b)) => number_eq(a, b),
            (Json::String(a), Json::String(b)) => text_eq(a.as_str(), b.as_str()),
            (Json::Array(a), Json::Array(b)) => {
                proof {
                    lemma_array_view(*a);
                    lemma_array_view(*b);
                }
                if a.len() != b.len() {
                    return false;
                }
                let mut i: usize = 0;
                while i < a.len()
                    invariant
                        i <= a.len(),
                        a.len() == b.len(),
                        forall|k: int| 0 <= k < i ==> same_json(a[k]@, b[k]@),
                        *self is Array && self->Array_0 == *a,
                        self@ == JsonValue::Array(items_view(a@)),
                        other@ == JsonValue::Array(items_view(b@)),
                    decreases a.len() - i,
                {
                    proof {
                        vstd::std_specs::vec::axiom_vec_index_decreases(*a, i as int);
                    }
                    if !a[i].same(&b[i]) {
                        assert(!same_json(items_view(a@)[i as int], items_view(b@)[i as int]));
                        return false;
                    }
                    i = i + 1;
                }
                assert forall|k: int| 0 <= k < a.len() implies same_json(
                    #[trigger] items_view(a@)[k],
                    items_view(b@)[k],
                ) by {
                    assert(same_json(a[k]@, b[k]@));
                }
                true
            },
            (Json::Object(a), Json::Object(b)) => {
                let ghost x = members_view(a@);
                let ghost y = members_view(b@);
                proof {
                    lemma_object_view(*a);
                    lemma_object_view(*b);
                }
                let mut j: usize = 0;
                while j < b.len()
                    invariant
                        j <= b.len(),
                        x == members_view(a@),
                        y == members_view(b@),
                        forall|k: int| 0 <= k < j ==> lookup(x, (#[trigger] y[k]).0) is Some,
                        self@ == JsonValue::Object(x),
                        other@ == JsonValue::Object(y),
                    decreases b.len() - j,
                {
                    if find_member(a, b[j].0.as_str()).is_none() {
                        assert(lookup(x, y[j as int].0) is None);
                        return false;
                    }
                    j = j + 1;
                }
                let mut i: usize = 0;
                while i < a.len()
                    invariant
                        i <= a.len(),
                        x == members_view(a@),
                        y == members_view(b@),
                        forall|k: int|
                            0 <= k < i && counts(x, k) ==> match lookup(y, (#[trigger] x[k]).0) {
                                Some(other) => same_json(x[k].1, other),
                                None => false,
                            },
                        *self is Object && self->Object_0 == *a,
                        self@ == JsonValue::Object(x),
                        other@ == JsonValue::Object(y),
                    decreases a.len() - i,
                {
                    if is_last_of_its_key(a, i) {
                        proof {
                            vstd::std_specs::vec::axiom_vec_index_decreases(*a, i as int);
                        }
                        match find_member(b, a[i].0.as_str()) {
                            Some(found) => {
                                if !a[i].1.same(found) {
                                    assert(lookup(y, x[i as int].0) == Some(found@));
                                    assert(!same_json(x[i as int].1, found@));
                                    return false;
                                }
                            },
                            None => {
                                assert(lookup(y, x[i as int].0) is None);
                                return false;
                            },
                        }
                    }
                    i = i + 1;
                }
                true
            },
            _ => false,
        }
    }
}

/// Whether no member after the one at `i` has its key.
fn is_last_of_its_key(members: &Vec<(String, Json)>, i: usize) -> (r: bool)
    requires
        i < members.len(),
    ensures
        r == counts(members_view(members@), i as int),
{
    let ghost all = members_view(members@);
    let mut k: usize = i + 1;
    while k < members.len()
        invariant
            i < k <= members.len(),
            all == members_view(members@),
            forall|n: int| i < n < k ==> (#[trigger] all[n]).0 != all[i as int].0,
        decreases members.len() - k,
    {
        if text_eq(members[k].0.as_str(), members[i].0.as_str()) {
            assert(all[k as int].0 == all[i as int].0);
            return false;
        }
        k = k + 1;
    }
    true
}

impl PartialEq for Json {
    fn eq(&self, other: &Json) -> (r: bool) {
        self.same(other)
    }
}

impl PartialEqSpecImpl for Json {
    open spec fn obeys_eq_spec() -> bool {
        true
    }

    open spec fn eq_spec(&self, other: &Json) -> bool {
        same_json(self@, other@)
    }
}

} // verus!
