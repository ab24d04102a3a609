//! JSON values as plain data.
//!
//! A value holds what a JSON document holds: an object keeps its members in
//! document order, and a number keeps its decimal text.

use crate::text::{chars_of, same_chars};
use vstd::prelude::*;

verus! {

/// A JSON value.
#[derive(Debug)]
pub enum Json {
    /// `null`
    Null,
    /// `true` or `false`
    Bool(bool),
    /// A number, as its text
    Number(String),
    /// A string
    Text(String),
    /// An array
    Array(Vec<Json>),
    /// An object: its members, each a name and a value
    Object(Vec<(String, Json)>),
}

/// What a JSON value holds, as mathematical data.
pub enum JsonData {
    Null,
    Bool(bool),
    Number(Seq<char>),
    Text(Seq<char>),
    Array(Seq<JsonData>),
    Object(Seq<(Seq<char>, JsonData)>),
}

/// The data that a value holds.
pub open spec fn data_of(value: Json) -> JsonData
    decreases value,
{
    match value {
        Json::Null => JsonData::Null,
        Json::Bool(b) => JsonData::Bool(b),
        Json::Number(text) => JsonData::Number(text@),
        Json::Text(text) => JsonData::Text(text@),
        Json::Array(items) => JsonData::Array(
            Seq::new(
                items@.len(),
                |i: int|
                    if 0 <= i < items@.len() {
                        data_of(items@[i])
                    } else {
                        JsonData::Null
                    },
            ),
        ),
        Json::Object(members) => JsonData::Object(
            Seq::new(
                members@.len(),
                |i: int|
                    if 0 <= i < members@.len() {
                        (members@[i].0@, data_of(members@[i].1))
                    } else {
                        (Seq::empty(), JsonData::Null)
                    },
            ),
        ),
    }
}

impl View for Json {
    type V = JsonData;

    open spec fn view(&self) -> JsonData {
        data_of(*self)
    }
}

impl Clone for Json {
    /// A copy that holds the same data.
    fn clone(&self) -> (copy: Json)
        ensures
            copy@ == self@,
        decreases self,
    {
        match self {
            Json::Null => Json::Null,
            Json::Bool(b) => Json::Bool(*b),
            Json::Number(text) => Json::Number(text.clone()),
            Json::Text(text) => Json::Text(text.clone()),
            Json::Array(items) => {
                let mut copies: Vec<Json> = Vec::new();
                let mut i: usize = 0;
                while i < items.len()
                    invariant
                        *self == Json::Array(*items),
                        decreases_to!(self => items),
                        i <= items@.len(),
                        copies@.len() == i,
                        forall|j: int| 0 <= j < i ==> (#[trigger] copies@[j])@ == items@[j]@,
                    decreases items@.len() - i,
                {
                    proof {
                        vstd::std_specs::vec::axiom_vec_index_decreases(*items, i as int);
                    }
                    copies.push(items[i].clone());
                    i += 1;
                }
                let copy = Json::Array(copies);
                assert(copy@->Array_0 =~= self@->Array_0);
                copy
            },
            Json::Object(members) => {
                let mut copies: Vec<(String, Json)> = Vec::new();
                let mut i: usize = 0;
                while i < members.len()
                    invariant
                        *self == Json::Object(*members),
                        decreases_to!(self => members),
                        i <= members@.len(),
                        copies@.len() == i,
                        forall|j: int|
                            0 <= j < i ==> (#[trigger] copies@[j]).0@ == members@[j].0@
                                && copies@[j].1@ == members@[j].1@,
                    decreases members@.len() - i,
                {
                    proof {
                        vstd::std_specs::vec::axiom_vec_index_decreases(*members, i as int);
                    }
                    copies.push((members[i].0.clone(), members[i].1.clone()));
                    i += 1;
                }
                let copy = Json::Object(copies);
                let ghost made = copy@->Object_0;
                let ghost held = self@->Object_0;
                assert forall|j: int| 0 <= j < members@.len() implies made[j] == held[j] by {
                    assert(copies@[j].0@ == members@[j].0@);
                }
                assert(made =~= held);
                copy
            },
        }
    }
}

/// The position of the first member of `members` named `key`, or the number
/// of members where there is none.
pub open spec fn first_member(members: Seq<(String, Json)>, key: Seq<char>) -> int
    decreases members.len(),
{
    if members.len() == 0 {
        0
    } else if members[0].0@ == key {
        0
    } else {
        1 + first_member(members.drop_first(), key)
    }
}

/// `first_member` is within bounds, names `key` when inside, and no member
/// before it is named `key`.
pub proof fn lemma_first_member(members: Seq<(String, Json)>, key: Seq<char>)
    ensures
        0 <= first_member(members, key) <= members.len(),
        first_member(members, key) < members.len() ==> members[first_member(members, key)].0@
            == key,
        forall|j: int| 0 <= j < first_member(members, key) ==> members[j].0@ != key,
    decreases members.len(),
{
    if members.len() > 0 && members[0].0@ != key {
        let rest = members.drop_first();
        lemma_first_member(rest, key);
        let k = first_member(rest, key);
        assert forall|j: int| 0 <= j < 1 + k implies members[j].0@ != key by {
            if j > 0 {
                assert(rest[j - 1] == members[j]);
            }
        }
    }
}

/// A position that names `key`, with no member named `key` before it, is the
/// first member.
pub proof fn lemma_first_member_unique(members: Seq<(String, Json)>, key: Seq<char>, i: int)
    requires
        0 <= i <= members.len(),
        i < members.len() ==> members[i].0@ == key,
        forall|j: int| 0 <= j < i ==> members[j].0@ != key,
    ensures
        first_member(members, key) == i,
{
    lemma_first_member(members, key);
    let k = first_member(members, key);
    if k < i {
        assert(members[k].0@ == key);
    } else if i < k {
        assert(members[i].0@ == key);
    }
}

/// The member of `value` named `key`: the first one with that name where
/// `value` is an object that has one, and nothing otherwise.
pub open spec fn member_of(value: Json, key: Seq<char>) -> Option<Json> {
    match value {
        Json::Object(members) => {
            let i = first_member(members@, key);
            if 0 <= i < members@.len() {
                Some(members@[i].1)
            } else {
                None
            }
        },
        _ => None,
    }
}

/// The text of `value` where it is a string, and nothing otherwise.
pub open spec fn text_of(value: Json) -> Option<Seq<char>> {
    match value {
        Json::Text(s) => Some(s@),
        _ => None,
    }
}

impl Json {
    /// The member named `key`, where this is an object that has one.
    pub fn get(&self, key: &[char]) -> (member: Option<&Json>)
        ensures
            match member {
                Some(m) => member_of(*self, key@) == Some(*m),
                None => member_of(*self, key@) is None,
            },
    {
        match self {
            Json::Object(members) => {
                let mut i: usize = 0;
                while i < members.len()
                    invariant
                        *self == Json::Object(*members),
                        decreases_to!(self => members),
                        i <= members@.len(),
                        forall|j: int| 0 <= j < i ==> members@[j].0@ != key@,
                    decreases members@.len() - i,
                {
                    let name = chars_of(members[i].0.as_str());
                    if same_chars(name.as_slice(), key) {
                        proof {
                            lemma_first_member_unique(members@, key@, i as int);
                        }
                        return Some(&members[i].1);
                    }
                    i += 1;
                }
                proof {
                    lemma_first_member_unique(members@, key@, members@.len() as int);
                }
                None
            },
            _ => None,
        }
    }

    /// The text of this value, where it is a string.
    pub fn as_str(&self) -> (text: Option<&str>)
        ensures
            match text {
                Some(t) => text_of(*self) == Some(t@),
                None => text_of(*self) is None,
            },
    {
        match self {
            Json::Text(s) => Some(s.as_str()),
            _ => None,
        }
    }
}

} // verus!
