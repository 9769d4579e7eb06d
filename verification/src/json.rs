//! A JSON document as plain values, and lookup of object members.

use vstd::prelude::*;
use crate::text::str_eq;

verus! {

/// A JSON value. Numbers are kept as their JSON text; an object keeps its
/// members in document order.
pub enum Json {
    Null,
    Bool(bool),
    Number(String),
    Str(String),
    Array(Vec<Json>),
    Object(Vec<(String, Json)>),
}

/// The text of an optional string.
pub open spec fn opt_text(o: Option<String>) -> Option<Seq<char>> {
    match o {
        Some(s) => Some(s@),
        None => None,
    }
}

/// Position of the first member named `key`.
pub open spec fn member_index(members: Seq<(String, Json)>, key: Seq<char>) -> Option<int>
    decreases members.len(),
{
    if members.len() == 0 {
        None
    } else if members[0].0@ == key {
        Some(0)
    } else {
        match member_index(members.drop_first(), key) {
            Some(i) => Some(i + 1),
            None => None,
        }
    }
}

/// The member `key` of an object (the first one of that name); `None` for a
/// missing member and for a value that is not an object (`Value::get` with a
/// string key).
pub open spec fn json_get(j: Json, key: Seq<char>) -> Option<Json> {
    match j {
        Json::Object(members) => match member_index(members@, key) {
            Some(i) => Some(members@[i].1),
            None => None,
        },
        _ => None,
    }
}

/// The members of an object; `None` for any other value (`Value::as_object`).
pub open spec fn json_members(j: Json) -> Option<Seq<(String, Json)>> {
    match j {
        Json::Object(members) => Some(members@),
        _ => None,
    }
}

/// Whether an object has a member named `key`.
pub open spec fn has_member(members: Seq<(String, Json)>, key: Seq<char>) -> bool {
    member_index(members, key) is Some
}

proof fn lemma_member_index(members: Seq<(String, Json)>, key: Seq<char>, j: int)
    requires
        0 <= j <= members.len(),
        forall|k: int| 0 <= k < j ==> #[trigger] members[k].0@ != key,
        j == members.len() || members[j].0@ == key,
    ensures
        member_index(members, key) == (if j == members.len() {
            None::<int>
        } else {
            Some(j)
        }),
    decreases j,
{
    if members.len() > 0 && j > 0 {
        assert forall|k: int| 0 <= k < j - 1 implies #[trigger] members.drop_first()[k].0@ != key by {
            assert(members[k + 1].0@ != key);
        }
        lemma_member_index(members.drop_first(), key, j - 1);
    }
}

/// Position of the first member of `members` named `key`.
pub fn find_member(members: &Vec<(String, Json)>, key: &str) -> (r: Option<usize>)
    ensures
        match r {
            Some(i) => member_index(members@, key@) == Some(i as int) && i < members@.len(),
            None => member_index(members@, key@) is None,
        },
{
    let mut i: usize = 0;
    while i < members.len()
        invariant
            i <= members@.len(),
            forall|k: int| 0 <= k < i ==> #[trigger] members@[k].0@ != key@,
        decreases members@.len() - i,
    {
        if str_eq(members[i].0.as_str(), key) {
            proof {
                lemma_member_index(members@, key@, i as int);
            }
            return Some(i);
        }
        i = i + 1;
    }
    proof {
        lemma_member_index(members@, key@, i as int);
    }
    None
}

impl Json {
    /// The member `key` of this value when it is an object (`Value::get`).
    pub fn get(&self, key: &str) -> (r: Option<&Json>)
        ensures
            match r {
                Some(v) => json_get(*self, key@) == Some(*v),
                None => json_get(*self, key@) is None,
            },
    {
        match self {
            Json::Object(members) => match find_member(members, key) {
                Some(i) => Some(&members[i].1),
                None => None,
            },
            _ => None,
        }
    }

    /// The members of this value when it is an object (`Value::as_object`).
    pub fn as_object(&self) -> (r: Option<&Vec<(String, Json)>>)
        ensures
            match r {
                Some(m) => json_members(*self) == Some(m@),
                None => json_members(*self) is None,
            },
    {
        match self {
            Json::Object(members) => Some(members),
            _ => None,
        }
    }

    /// The text of this value when it is a string (`Value::as_str`).
    pub fn as_str(&self) -> (r: Option<&str>)
        ensures
            match r {
                Some(s) => *self matches Json::Str(t) && t@ == s@,
                None => !(*self is Str),
            },
    {
        match self {
            Json::Str(s) => Some(s.as_str()),
            _ => None,
        }
    }
}

} // verus!
