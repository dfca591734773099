//! JSON values as plain data (the `serde_json::Value` that metadata arrives
//! in), with the lookups that the indexer makes in them. A number is held by
//! its text.
use vstd::prelude::*;
use crate::text::str_eq;

verus! {

/// A JSON value.
#[derive(Debug)]
pub enum Json {
    Null,
    Bool(bool),
    /// A number, by its JSON text.
    Number(String),
    Str(String),
    Array(Vec<Json>),
    /// The members of an object, in order; a key occurs once.
    Object(Vec<(String, Json)>),
}

/// The index of the member with key `key`, if any (the first such member).
pub open spec fn member_index(members: Seq<(String, Json)>, key: Seq<char>) -> Option<int>
    decreases members.len(),
{
    if members.len() == 0 {
        None
    } else {
        match member_index(members.drop_last(), key) {
            Some(i) => Some(i),
            None => if members.last().0@ == key {
                Some(members.len() - 1)
            } else {
                None
            },
        }
    }
}

/// `Value::get(key)`: the member `key` of an object; nothing for a value
/// that is not an object or has no such member.
pub open spec fn json_get(j: Json, key: Seq<char>) -> Option<Json> {
    match j {
        Json::Object(members) => match member_index(members@, key) {
            Some(i) => Some(members@[i].1),
            None => None,
        },
        _ => None,
    }
}

/// `Value::as_str`: the text of a string value.
pub open spec fn json_str(j: Json) -> Option<Seq<char>> {
    match j {
        Json::Str(s) => Some(s@),
        _ => None,
    }
}

/// `Value::as_array`: the items of an array value.
pub open spec fn json_array(j: Json) -> Option<Seq<Json>> {
    match j {
        Json::Array(items) => Some(items@),
        _ => None,
    }
}

/// The text of the string member `key` of `j`, if it has one
/// (`j.get(key).and_then(|d| d.as_str())`).
pub open spec fn json_str_member(j: Json, key: Seq<char>) -> Option<Seq<char>> {
    match json_get(j, key) {
        Some(v) => json_str(v),
        None => None,
    }
}

/// The items of the array member `key` of `j`, if it has one
/// (`j.get(key).and_then(|d| d.as_array())`).
pub open spec fn json_array_member(j: Json, key: Seq<char>) -> Option<Seq<Json>> {
    match json_get(j, key) {
        Some(v) => json_array(v),
        None => None,
    }
}

/// `member_index` is a first match.
proof fn lemma_member_index(members: Seq<(String, Json)>, key: Seq<char>)
    ensures
        match member_index(members, key) {
            Some(i) => 0 <= i < members.len() && members[i].0@ == key && forall|j: int|
                0 <= j < i ==> members[j].0@ != key,
            None => forall|j: int| 0 <= j < members.len() ==> members[j].0@ != key,
        },
    decreases members.len(),
{
    if members.len() > 0 {
        lemma_member_index(members.drop_last(), key);
        assert(forall|j: int| 0 <= j < members.len() - 1 ==> members.drop_last()[j] == members[j]);
    }
}

impl Json {
    /// `Value::get` with a key.
    pub fn get(&self, key: &str) -> (r: Option<&Json>)
        ensures
            match json_get(*self, key@) {
                Some(v) => r matches Some(x) && *x == v,
                None => r is None,
            },
    {
        match self {
            Json::Object(members) => {
                proof {
                    lemma_member_index(members@, key@);
                }
                let mut i: usize = 0;
                while i < members.len()
                    invariant
                        i <= members.len(),
                        *self == Json::Object(*members),
                        forall|j: int| 0 <= j < i ==> members@[j].0@ != key@,
                        match member_index(members@, key@) {
                            Some(k) => 0 <= k < members@.len() && members@[k].0@ == key@
                                && forall|j: int| 0 <= j < k ==> members@[j].0@ != key@,
                            None => forall|j: int| 0 <= j < members@.len() ==> members@[j].0@ != key@,
                        },
                    decreases members.len() - i,
                {
                    if str_eq(members[i].0.as_str(), key) {
                        proof {
                            match member_index(members@, key@) {
                                Some(k) => {
                                    assert(k == i as int);
                                },
                                None => {},
                            }
                            assert(json_get(*self, key@) == Some(members@[i as int].1));
                        }
                        return Some(&members[i].1);
                    }
                    i = i + 1;
                }
                None
            },
            _ => None,
        }
    }

    /// `Value::as_str`.
    pub fn as_str(&self) -> (r: Option<&String>)
        ensures
            match json_str(*self) {
                Some(s) => r matches Some(x) && x@ == s,
                None => r is None,
            },
    {
        match self {
            Json::Str(s) => Some(s),
            _ => None,
        }
    }

    /// `Value::as_array`.
    pub fn as_array(&self) -> (r: Option<&Vec<Json>>)
        ensures
            match json_array(*self) {
                Some(items) => r matches Some(x) && x@ == items,
                None => r is None,
            },
    {
        match self {
            Json::Array(items) => Some(items),
            _ => None,
        }
    }

    /// The text of the string member `key`, if there is one.
    pub fn str_member(&self, key: &str) -> (r: Option<&String>)
        ensures
            match json_str_member(*self, key@) {
                Some(s) => r matches Some(x) && x@ == s,
                None => r is None,
            },
    {
        match self.get(key) {
            Some(v) => v.as_str(),
            None => None,
        }
    }

    /// The items of the array member `key`, if there is one.
    pub fn array_member(&self, key: &str) -> (r: Option<&Vec<Json>>)
        ensures
            match json_array_member(*self, key@) {
                Some(items) => r matches Some(x) && x@ == items,
                None => r is None,
            },
    {
        match self.get(key) {
            Some(v) => v.as_array(),
            None => None,
        }
    }
}


/// A JSON value as a mathematical value: what two values hold alike when
/// they are equal as JSON.
pub enum JsonValue {
    Null,
    Bool(bool),
    Number(Seq<char>),
    Str(Seq<char>),
    Array(Seq<JsonValue>),
    Object(Seq<(Seq<char>, JsonValue)>),
}

/// The mathematical value of a JSON value.
pub open spec fn json_value(j: Json) -> JsonValue
    decreases j, 1int,
{
    match j {
        Json::Null => JsonValue::Null,
        Json::Bool(b) => JsonValue::Bool(b),
        Json::Number(s) => JsonValue::Number(s@),
        Json::Str(s) => JsonValue::Str(s@),
        Json::Array(v) => JsonValue::Array(items_value(v@)),
        Json::Object(m) => JsonValue::Object(members_value(m@)),
    }
}

/// The values of the items of an array, in order.
pub open spec fn items_value(s: Seq<Json>) -> Seq<JsonValue>
    decreases s, 0int,
{
    if s.len() == 0 {
        seq![]
    } else {
        items_value(s.subrange(0, s.len() - 1)).push(json_value(s[s.len() - 1]))
    }
}

/// The keys and values of the members of an object, in order.
pub open spec fn members_value(s: Seq<(String, Json)>) -> Seq<(Seq<char>, JsonValue)>
    decreases s, 0int,
{
    if s.len() == 0 {
        seq![]
    } else {
        members_value(s.subrange(0, s.len() - 1)).push((s[s.len() - 1].0@, json_value(s[s.len() - 1].1)))
    }
}

/// The size of a JSON value: one for the value and one for each item or
/// member, with the sizes of what they hold.
pub open spec fn json_size(j: Json) -> nat
    decreases j, 1int,
{
    match j {
        Json::Array(v) => 1 + items_size(v@),
        Json::Object(m) => 1 + members_size(m@),
        _ => 1,
    }
}

/// The size of the items of an array.
pub open spec fn items_size(s: Seq<Json>) -> nat
    decreases s, 0int,
{
    if s.len() == 0 {
        0
    } else {
        items_size(s.subrange(0, s.len() - 1)) + json_size(s[s.len() - 1]) + 1
    }
}

/// The size of the members of an object.
pub open spec fn members_size(s: Seq<(String, Json)>) -> nat
    decreases s, 0int,
{
    if s.len() == 0 {
        0
    } else {
        members_size(s.subrange(0, s.len() - 1)) + json_size(s[s.len() - 1].1) + 1
    }
}

/// Each item of an array is smaller than the items together.
proof fn lemma_item_smaller(s: Seq<Json>, i: int)
    requires
        0 <= i < s.len(),
    ensures
        json_size(s[i]) < items_size(s),
    decreases s.len(),
{
    if i < s.len() - 1 {
        lemma_item_smaller(s.subrange(0, s.len() - 1), i);
    }
}

/// Each member of an object holds a value smaller than the members together.
proof fn lemma_member_smaller(s: Seq<(String, Json)>, i: int)
    requires
        0 <= i < s.len(),
    ensures
        json_size(s[i].1) < members_size(s),
    decreases s.len(),
{
    if i < s.len() - 1 {
        lemma_member_smaller(s.subrange(0, s.len() - 1), i);
    }
}

/// A copy of a JSON value, item by item and member by member.
pub fn json_copy(j: &Json) -> (r: Json)
    ensures
        json_value(r) == json_value(*j),
    decreases json_size(*j),
{
    match j {
        Json::Null => Json::Null,
        Json::Bool(b) => Json::Bool(*b),
        Json::Number(s) => Json::Number(s.clone()),
        Json::Str(s) => Json::Str(s.clone()),
        Json::Array(v) => {
            let mut out: Vec<Json> = Vec::new();
            let mut i: usize = 0;
            while i < v.len()
                invariant
                    i <= v.len(),
                    *j == Json::Array(*v),
                    items_value(out@) == items_value(v@.subrange(0, i as int)),
                decreases v.len() - i,
            {
                proof {
                    lemma_item_smaller(v@, i as int);
                }
                let x = json_copy(&v[i]);
                let ghost prev = out@;
                out.push(x);
                proof {
                    assert(out@.subrange(0, out@.len() - 1) =~= prev);
                    assert(v@.subrange(0, i + 1).subrange(0, i as int) =~= v@.subrange(0, i as int));
                }
                i = i + 1;
            }
            proof {
                assert(v@.subrange(0, v@.len() as int) =~= v@);
            }
            Json::Array(out)
        },
        Json::Object(m) => {
            let mut out: Vec<(String, Json)> = Vec::new();
            let mut i: usize = 0;
            while i < m.len()
                invariant
                    i <= m.len(),
                    *j == Json::Object(*m),
                    members_value(out@) == members_value(m@.subrange(0, i as int)),
                decreases m.len() - i,
            {
                proof {
                    lemma_member_smaller(m@, i as int);
                }
                let x = (m[i].0.clone(), json_copy(&m[i].1));
                let ghost prev = out@;
                out.push(x);
                proof {
                    assert(out@.subrange(0, out@.len() - 1) =~= prev);
                    assert(m@.subrange(0, i + 1).subrange(0, i as int) =~= m@.subrange(0, i as int));
                }
                i = i + 1;
            }
            proof {
                assert(m@.subrange(0, m@.len() as int) =~= m@);
            }
            Json::Object(out)
        },
    }
}

/// A copy of the items of an array, in order.
pub fn items_copy(v: &Vec<Json>) -> (r: Vec<Json>)
    ensures
        items_value(r@) == items_value(v@),
{
    let mut out: Vec<Json> = Vec::new();
    let mut i: usize = 0;
    while i < v.len()
        invariant
            i <= v.len(),
            items_value(out@) == items_value(v@.subrange(0, i as int)),
        decreases v.len() - i,
    {
        let x = json_copy(&v[i]);
        let ghost prev = out@;
        out.push(x);
        proof {
            assert(out@.subrange(0, out@.len() - 1) =~= prev);
            assert(v@.subrange(0, i + 1).subrange(0, i as int) =~= v@.subrange(0, i as int));
        }
        i = i + 1;
    }
    proof {
        assert(v@.subrange(0, v@.len() as int) =~= v@);
    }
    out
}

} // verus!
