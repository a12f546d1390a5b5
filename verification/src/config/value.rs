//! Values as a configuration file writes them.
use crate::text::same;
use vstd::prelude::*;

verus! {

/// A value.
#[derive(Debug)]
pub enum Value {
    Text(String),
    Integer(i64),
    Array(Vec<Value>),
    /// Values by key. No key occurs twice.
    Table(Vec<(String, Value)>),
    /// Anything else.
    Other,
}

/// The first place at or after `from` with this key, or the length if there is none.
pub open spec fn key_place(entries: Seq<(String, Value)>, key: Seq<char>, from: int) -> int
    decreases entries.len() - from,
{
    if from >= entries.len() {
        entries.len() as int
    } else if entries[from].0@ == key {
        from
    } else {
        key_place(entries, key, from + 1)
    }
}

/// The value under a key.
pub open spec fn entry(entries: Seq<(String, Value)>, key: Seq<char>) -> Option<Value> {
    let i = key_place(entries, key, 0);
    if 0 <= i < entries.len() {
        Some(entries[i].1)
    } else {
        None
    }
}

/// The value under a key.
pub fn find_entry<'a>(entries: &'a Vec<(String, Value)>, key: &str) -> (r: Option<&'a Value>)
    ensures
        match r {
            Some(v) => entry(entries@, key@) == Some(*v),
            None => entry(entries@, key@) is None,
        },
{
    let mut i: usize = 0;
    while i < entries.len()
        invariant
            i <= entries@.len(),
            key_place(entries@, key@, i as int) == key_place(entries@, key@, 0),
        decreases entries@.len() - i,
    {
        if same(entries[i].0.as_str(), key) {
            return Some(&entries[i].1);
        }
        i = i + 1;
    }
    None
}

impl Value {
    /// The value under a key, if this is a table that has it.
    pub open spec fn spec_get(self, key: Seq<char>) -> Option<Value> {
        match self {
            Value::Table(entries) => entry(entries@, key),
            _ => None,
        }
    }

    /// The value under a key, if this is a table that has it.
    pub fn get(&self, key: &str) -> (r: Option<&Value>)
        ensures
            match r {
                Some(v) => self.spec_get(key@) == Some(*v),
                None => self.spec_get(key@) is None,
            },
    {
        match self {
            Value::Table(entries) => find_entry(entries, key),
            _ => None,
        }
    }
}

proof fn lemma_key_place(entries: Seq<(String, Value)>, key: Seq<char>, from: int)
    requires
        0 <= from <= entries.len(),
    ensures
        from <= key_place(entries, key, from) <= entries.len(),
        forall|i: int|
            from <= i < key_place(entries, key, from) ==> (#[trigger] entries[i]).0@ != key,
        key_place(entries, key, from) < entries.len() ==> entries[key_place(
            entries,
            key,
            from,
        )].0@ == key,
    decreases entries.len() - from,
{
    if from < entries.len() && entries[from].0@ != key {
        lemma_key_place(entries, key, from + 1);
    }
}

/// The value under a key is that of the first entry with the key; only a table has values, and
/// none under a key that no entry has.
pub proof fn a_value_is_that_of_its_key(v: Value, key: &str, r: Option<&Value>, i: int)
    requires
        call_ensures(Value::get, (&v, key), r),
    ensures
        !(v is Table) ==> r is None,
        (v matches Value::Table(entries) && 0 <= i < entries@.len() && entries@[i].0@ == key@
            && forall|j: int| 0 <= j < i ==> (#[trigger] entries@[j]).0@ != key@) ==> r == Some(
            &v->Table_0@[i].1,
        ),
        (v matches Value::Table(entries) && forall|j: int|
            0 <= j < entries@.len() ==> (#[trigger] entries@[j]).0@ != key@) ==> r is None,
{
    if let Value::Table(entries) = v {
        lemma_key_place(entries@, key@, 0);
        let k = key_place(entries@, key@, 0);
        if 0 <= i < entries@.len() && k < i {
            assert(entries@[k].0@ == key@);
        }
        if k < entries@.len() {
            assert(entries@[k].0@ == key@);
        }
    }
}

}
