//! A JSON document as plain values.
use vstd::prelude::*;

verus! {

/// A JSON value. Numbers are binary64 values held as their bit patterns;
/// an object is its list of members in document order.
#[derive(Debug, PartialEq)]
pub enum JsonValue {
    Null,
    Bool(bool),
    Number(u64),
    Str(String),
    Array(Vec<JsonValue>),
    Object(Vec<(String, JsonValue)>),
}

/// The position of the first member at or after `i` whose name is `key`.
pub open spec fn find_member_from(members: Seq<(String, JsonValue)>, key: Seq<char>, i: int) -> Option<
    int,
>
    decreases members.len() - i,
{
    if i < 0 || i >= members.len() {
        None
    } else if members[i].0@ == key {
        Some(i)
    } else {
        find_member_from(members, key, i + 1)
    }
}

/// The position of the first member whose name is `key`.
pub open spec fn find_member(members: Seq<(String, JsonValue)>, key: Seq<char>) -> Option<int> {
    find_member_from(members, key, 0)
}

pub proof fn lemma_find_member_from_bounds(members: Seq<(String, JsonValue)>, key: Seq<char>, i: int)
    ensures
        find_member_from(members, key, i) matches Some(j) ==> i <= j < members.len() && members[j].0@
            == key,
    decreases members.len() - i,
{
    if 0 <= i < members.len() && members[i].0@ != key {
        lemma_find_member_from_bounds(members, key, i + 1);
    }
}

/// Returns the position of the first member named `key`, if there is one.
pub fn find_member_index(members: &Vec<(String, JsonValue)>, key: &String) -> (r: Option<usize>)
    ensures
        r matches Some(i) ==> find_member(members@, key@) == Some(i as int),
        r is None ==> find_member(members@, key@) is None,
        r matches Some(i) ==> i < members@.len(),
{
    let mut i: usize = 0;
    while i < members.len()
        invariant
            i <= members@.len(),
            find_member(members@, key@) == find_member_from(members@, key@, i as int),
        decreases members@.len() - i,
    {
        if members[i].0 == *key {
            return Some(i);
        }
        i = i + 1;
    }
    None
}

} // verus!
