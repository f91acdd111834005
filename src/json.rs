//! JSON values, as far as the error model reads and writes them.
use vstd::prelude::*;

verus! {

/// A JSON value. Numbers keep their text, so that a value passes through
/// unchanged; object members keep their order.
#[derive(Debug, PartialEq)]
pub enum JsonValue {
    Null,
    Bool(bool),
    Number(String),
    Str(String),
    Array(Vec<JsonValue>),
    Object(Vec<(String, JsonValue)>),
}

/// The value of the first entry named `key`.
pub open spec fn lookup(members: Seq<(String, JsonValue)>, key: Seq<char>) -> Option<JsonValue>
    decreases members.len(),
{
    if members.len() == 0 {
        None
    } else if members[0].0@ == key {
        Some(members[0].1)
    } else {
        lookup(members.drop_first(), key)
    }
}

/// The value of the first member named `key`, when `j` is an object that has one.
pub open spec fn member(j: JsonValue, key: Seq<char>) -> Option<JsonValue> {
    match j {
        JsonValue::Object(members) => lookup(members@, key),
        _ => None,
    }
}

/// The text of the first member named `key`, when `j` is an object whose
/// first such member is a string.
pub open spec fn str_member(j: JsonValue, key: Seq<char>) -> Option<Seq<char>> {
    match member(j, key) {
        Some(JsonValue::Str(s)) => Some(s@),
        _ => None,
    }
}

/// The first entry named `key` is at index `i`.
pub(crate) proof fn lemma_lookup_at(members: Seq<(String, JsonValue)>, key: Seq<char>, i: int)
    requires
        0 <= i < members.len(),
        members[i].0@ == key,
        forall|j: int| 0 <= j < i ==> members[j].0@ != key,
    ensures
        lookup(members, key) == Some(members[i].1),
    decreases i,
{
    if i > 0 {
        lemma_lookup_at(members.drop_first(), key, i - 1);
    }
}

/// No entry is named `key`.
pub(crate) proof fn lemma_lookup_none(members: Seq<(String, JsonValue)>, key: Seq<char>)
    requires
        forall|j: int| 0 <= j < members.len() ==> members[j].0@ != key,
    ensures
        lookup(members, key) is None,
    decreases members.len(),
{
    if members.len() > 0 {
        lemma_lookup_none(members.drop_first(), key);
    }
}

impl JsonValue {
    /// Where the first member named `key` stands, when this value is an object that has one.
    pub fn member_index(&self, key: &str) -> (r: Option<usize>)
        ensures
            r matches Some(i) ==> self is Object && i < self->Object_0@.len() && member(*self, key@)
                == Some(self->Object_0@[i as int].1),
            r is None ==> member(*self, key@) is None,
    {
        match self {
            JsonValue::Object(members) => {
                let mut i: usize = 0;
                while i < members.len()
                    invariant
                        *self == JsonValue::Object(*members),
                        i <= members@.len(),
                        forall|j: int| 0 <= j < i ==> members@[j].0@ != key@,
                    decreases members@.len() - i,
                {
                    if members[i].0 == key.to_owned() {
                        proof {
                            lemma_lookup_at(members@, key@, i as int);
                        }
                        return Some(i);
                    }
                    i = i + 1;
                }
                proof {
                    lemma_lookup_none(members@, key@);
                }
                None
            },
            _ => None,
        }
    }

    /// The text of the first member named `key`, when this value is an object
    /// whose first such member is a string.
    pub fn str_member(&self, key: &str) -> (r: Option<String>)
        ensures
            r matches Some(s) ==> str_member(*self, key@) == Some(s@),
            r is None ==> str_member(*self, key@) is None,
    {
        match self.member_index(key) {
            Some(i) => match self {
                JsonValue::Object(members) => match &members[i].1 {
                    JsonValue::Str(s) => Some(s.clone()),
                    _ => None,
                },
                _ => None,
            },
            None => None,
        }
    }

    /// The first member named `key`, taken out of this value, when it is an
    /// object that has one.
    pub fn take_member(self, key: &str) -> (r: Option<JsonValue>)
        ensures
            r == member(self, key@),
    {
        match self.member_index(key) {
            Some(i) => match self {
                JsonValue::Object(mut members) => {
                    let (_, v) = members.remove(i);
                    Some(v)
                },
                _ => None,
            },
            None => None,
        }
    }
}

} // verus!
