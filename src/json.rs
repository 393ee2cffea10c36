//! A plain model of JSON values: what the dispatcher reads from a decoded
//! message and what it hands back to be written out.
use vstd::prelude::*;
use crate::text::str_eq;

verus! {

/// A JSON number. Integers are kept exactly; any other number is kept as the
/// decimal text that the JSON layer produced for it.
pub enum Number {
    PosInt(u64),
    NegInt(i64),
    Float(String),
}

pub enum Json {
    Null,
    Bool(bool),
    Number(Number),
    Str(String),
    Array(Vec<Json>),
    Object(Vec<(String, Json)>),
}

/// The value stored under `key` in a list of object members (the first one,
/// should a key repeat).
pub open spec fn member(fields: Seq<(String, Json)>, key: Seq<char>) -> Option<Json>
    decreases fields.len(),
{
    if fields.len() == 0 {
        None
    } else if fields[0].0@ == key {
        Some(fields[0].1)
    } else {
        member(fields.drop_first(), key)
    }
}

/// The member at `k` is the first one named `key`.
pub proof fn lemma_member_at(f: Seq<(String, Json)>, key: Seq<char>, k: int)
    requires
        0 <= k < f.len(),
        f[k].0@ == key,
        forall|j: int| 0 <= j < k ==> f[j].0@ != key,
    ensures
        member(f, key) == Some(f[k].1),
    decreases k,
{
    if k > 0 {
        lemma_member_at(f.drop_first(), key, k - 1);
    }
}

/// No member is named `key`.
pub proof fn lemma_member_absent(f: Seq<(String, Json)>, key: Seq<char>)
    requires
        forall|j: int| 0 <= j < f.len() ==> f[j].0@ != key,
    ensures
        member(f, key) is None,
    decreases f.len(),
{
    if f.len() > 0 {
        lemma_member_absent(f.drop_first(), key);
    }
}

/// `obj[key]` for an object, nothing for any other value.
pub open spec fn get_spec(v: Json, key: Seq<char>) -> Option<Json> {
    match v {
        Json::Object(fields) => member(fields@, key),
        _ => None,
    }
}

/// `obj[key]`, with an absent member read as `null`.
pub open spec fn get_or_null(v: Json, key: Seq<char>) -> Json {
    match get_spec(v, key) {
        Some(x) => x,
        None => Json::Null,
    }
}

/// Where the member `key` sits in a list of object members.
pub fn position(fields: &Vec<(String, Json)>, key: &str) -> (r: Option<usize>)
    ensures
        match r {
            Some(i) => i < fields@.len() && fields@[i as int].0@ == key@
                && member(fields@, key@) == Some(fields@[i as int].1),
            None => member(fields@, key@) is None,
        },
{
    let n = fields.len();
    let mut i: usize = 0;
    assert(fields@.subrange(0, n as int) =~= fields@);
    while i < n
        invariant
            n == fields@.len(),
            i <= n,
            member(fields@, key@) == member(fields@.subrange(i as int, n as int), key@),
        decreases n - i,
    {
        let ghost rest = fields@.subrange(i as int, n as int);
        assert(rest.drop_first() =~= fields@.subrange(i + 1, n as int));
        assert(rest[0] == fields@[i as int]);
        if str_eq(fields[i].0.as_str(), key) {
            return Some(i);
        }
        i = i + 1;
    }
    assert(fields@.subrange(n as int, n as int).len() == 0);
    None
}

impl Number {
    /// A copy of the number.
    pub fn copy(&self) -> (r: Number)
        ensures
            r == *self,
    {
        match self {
            Number::PosInt(u) => Number::PosInt(*u),
            Number::NegInt(i) => Number::NegInt(*i),
            Number::Float(s) => Number::Float(s.clone()),
        }
    }
}

impl Json {
    /// Looks up `key` in an object.
    pub fn get(&self, key: &str) -> (r: Option<&Json>)
        ensures
            match r {
                Some(x) => get_spec(*self, key@) == Some(*x),
                None => get_spec(*self, key@) is None,
            },
    {
        match self {
            Json::Object(fields) => match position(fields, key) {
                Some(i) => Some(&fields[i].1),
                None => None,
            },
            _ => None,
        }
    }
}

} // verus!
