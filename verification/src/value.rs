//! The document model: a tree of JSON-like values.
//!
//! Schemas and the documents checked against them are both values of this
//! type. An object is an ordered list of entries; a key is looked up from
//! the front, so where a key occurs twice the first entry is the one found.

use vstd::prelude::*;

verus! {

/// A number of a document, kept in the form in which it was written.
#[derive(Clone, Copy, Debug, PartialEq, Eq, Structural)]
pub enum Number {
    /// An integer that is not negative.
    PosInt(u64),
    /// A negative integer.
    NegInt(i64),
    /// A number with a fraction or an exponent, as the bits of its
    /// IEEE 754 binary64 form.
    Float(u64),
}

impl Number {
    /// Whether the number was written as an integer.
    pub open spec fn is_integer(self) -> bool {
        self is PosInt || self is NegInt
    }
}

/// The mathematical value of a document: what [`Value`] stands for.
pub enum SpecValue {
    Null,
    Bool(bool),
    Number(Number),
    String(Seq<char>),
    Array(Seq<SpecValue>),
    Object(Seq<(Seq<char>, SpecValue)>),
}

/// A document, or a fragment of a schema.
#[derive(Debug, PartialEq)]
pub enum Value {
    Null,
    Bool(bool),
    Number(Number),
    String(String),
    Array(Vec<Value>),
    Object(Vec<(String, Value)>),
}

/// The first value that `entries` holds under `key`, if there is one.
pub open spec fn lookup(entries: Seq<(Seq<char>, SpecValue)>, key: Seq<char>) -> Option<SpecValue>
    decreases entries.len(),
{
    if entries.len() == 0 {
        None
    } else if entries[0].0 == key {
        Some(entries[0].1)
    } else {
        lookup(entries.drop_first(), key)
    }
}

impl SpecValue {
    /// The entries of an object; no entries for any other value.
    pub open spec fn entries(self) -> Seq<(Seq<char>, SpecValue)> {
        match self {
            SpecValue::Object(entries) => entries,
            _ => Seq::empty(),
        }
    }

    /// Whether the value is an object with an entry under `key`.
    pub open spec fn has_key(self, key: Seq<char>) -> bool {
        exists|i: int| 0 <= i < self.entries().len() && (#[trigger] self.entries()[i]).0 == key
    }

    /// The value that an object holds under `key`.
    pub open spec fn get(self, key: Seq<char>) -> Option<SpecValue> {
        lookup(self.entries(), key)
    }
}

impl Value {
    /// The mathematical value of this document.
    pub open spec fn view(&self) -> SpecValue
        decreases self,
    {
        match self {
            Value::Null => SpecValue::Null,
            Value::Bool(b) => SpecValue::Bool(*b),
            Value::Number(n) => SpecValue::Number(*n),
            Value::String(s) => SpecValue::String(s@),
            Value::Array(items) => SpecValue::Array(
                Seq::new(
                    items.len() as nat,
                    |i: int|
                        if 0 <= i < items.len() {
                            items[i].view()
                        } else {
                            SpecValue::Null
                        },
                ),
            ),
            Value::Object(entries) => SpecValue::Object(
                Seq::new(
                    entries.len() as nat,
                    |i: int|
                        if 0 <= i < entries.len() {
                            (entries[i].0@, entries[i].1.view())
                        } else {
                            (Seq::empty(), SpecValue::Null)
                        },
                ),
            ),
        }
    }

    /// Tells whether the document is an object with an entry under `key`.
    pub fn contains_key(&self, key: &String) -> (found: bool)
        ensures
            found == self@.has_key(key@),
    {
        match self {
            Value::Object(entries) => {
                let mut i: usize = 0;
                while i < entries.len()
                    invariant
                        0 <= i <= entries.len(),
                        self@.entries().len() == entries.len(),
                        forall|k: int|
                            0 <= k < entries.len() ==> self@.entries()[k].0 == entries[k].0@,
                        forall|k: int| 0 <= k < i ==> (#[trigger] self@.entries()[k]).0 != key@,
                    decreases entries.len() - i,
                {
                    if entries[i].0 == *key {
                        assert(self@.entries()[i as int].0 == key@);
                        return true;
                    }
                    i += 1;
                }
                false
            },
            _ => false,
        }
    }

    /// Returns the value that the document holds under `key`: the first
    /// such entry of an object, and nothing for any other document.
    pub fn get(&self, key: &String) -> (found: Option<&Value>)
        ensures
            found is Some <==> self@.has_key(key@),
            match found {
                Some(value) => self@.get(key@) == Some(value@),
                None => self@.get(key@) is None,
            },
    {
        match self {
            Value::Object(entries) => {
                let mut i: usize = 0;
                while i < entries.len()
                    invariant
                        0 <= i <= entries.len(),
                        self@.entries().len() == entries.len(),
                        forall|k: int|
                            0 <= k < entries.len() ==> self@.entries()[k] == (
                                entries[k].0@,
                                entries[k].1@,
                            ),
                        forall|k: int| 0 <= k < i ==> (#[trigger] self@.entries()[k]).0 != key@,
                    decreases entries.len() - i,
                {
                    if entries[i].0 == *key {
                        proof {
                            lemma_lookup_first(self@.entries(), key@, i as int);
                        }
                        return Some(&entries[i].1);
                    }
                    i += 1;
                }
                proof {
                    lemma_lookup_absent(self@.entries(), key@);
                }
                None
            },
            _ => None,
        }
    }
}

/// A lookup finds the entry at `i` when no entry before it has the key.
pub proof fn lemma_lookup_first(entries: Seq<(Seq<char>, SpecValue)>, key: Seq<char>, i: int)
    requires
        0 <= i < entries.len(),
        entries[i].0 == key,
        forall|k: int| 0 <= k < i ==> (#[trigger] entries[k]).0 != key,
    ensures
        lookup(entries, key) == Some(entries[i].1),
    decreases entries.len(),
{
    if i > 0 {
        lemma_lookup_first(entries.drop_first(), key, i - 1);
    }
}

/// A lookup finds nothing exactly when no entry has the key.
pub proof fn lemma_lookup_absent(entries: Seq<(Seq<char>, SpecValue)>, key: Seq<char>)
    ensures
        lookup(entries, key) is None <==> forall|k: int|
            0 <= k < entries.len() ==> (#[trigger] entries[k]).0 != key,
    decreases entries.len(),
{
    if entries.len() > 0 {
        let rest = entries.drop_first();
        lemma_lookup_absent(rest, key);
        if entries[0].0 != key && lookup(rest, key) is None {
            assert forall|k: int| 0 <= k < entries.len() implies (#[trigger] entries[k]).0
                != key by {
                if k > 0 {
                    assert(rest[k - 1].0 != key);
                }
            }
        }
    }
}

} // verus!
