//! The key-value metadata of a GGUF file.

use crate::table::NameTable;
use vstd::prelude::*;

verus! {

/// A metadata value, as far as configurations read it.
#[derive(Debug)]
pub enum MetadataValue {
    /// An unsigned 32-bit integer.
    Uint32(u32),
    /// A single-precision number, as its pattern.
    Float32(u32),
    /// A text.
    String(String),
    /// A list of values.
    Array(Vec<MetadataValue>),
    /// A value of a kind that no configuration reads.
    Other,
}

impl MetadataValue {
    /// The integer of this value, where it is one.
    pub open spec fn u32_value(&self) -> Option<u32> {
        match *self {
            MetadataValue::Uint32(v) => Some(v),
            _ => None,
        }
    }

    /// The integer of this value, where it is one.
    pub fn as_u32(&self) -> (r: Option<u32>)
        ensures
            r == self.u32_value(),
    {
        match self {
            MetadataValue::Uint32(v) => Some(*v),
            _ => None,
        }
    }
}

/// The content of a metadata store.
pub type MetadataMap = Map<Seq<char>, MetadataValue>;

/// The integer under a key.
pub open spec fn meta_u32(m: MetadataMap, key: Seq<char>) -> Option<u32> {
    if m.contains_key(key) {
        m[key].u32_value()
    } else {
        None
    }
}

/// The pattern of the number under a key.
pub open spec fn meta_f32(m: MetadataMap, key: Seq<char>) -> Option<u32> {
    if m.contains_key(key) {
        match m[key] {
            MetadataValue::Float32(b) => Some(b),
            _ => None,
        }
    } else {
        None
    }
}

/// The text under a key.
pub open spec fn meta_text(m: MetadataMap, key: Seq<char>) -> Option<Seq<char>> {
    if m.contains_key(key) {
        match m[key] {
            MetadataValue::String(s) => Some(s@),
            _ => None,
        }
    } else {
        None
    }
}

/// The integer under a key, or a default.
pub open spec fn size_or(m: MetadataMap, key: Seq<char>, default: usize) -> usize {
    match meta_u32(m, key) {
        Some(v) => v as usize,
        None => default,
    }
}

/// The pattern of the number under a key, or a default.
pub open spec fn bits_or(m: MetadataMap, key: Seq<char>, default: u32) -> u32 {
    match meta_f32(m, key) {
        Some(b) => b,
        None => default,
    }
}

/// A store of metadata values, each under a key.
#[derive(Debug)]
pub struct MetadataStore {
    table: NameTable<MetadataValue>,
}

impl View for MetadataStore {
    type V = MetadataMap;

    closed spec fn view(&self) -> MetadataMap {
        self.table@
    }
}

impl MetadataStore {
    /// An empty store.
    pub fn new() -> (s: Self)
        ensures
            s@ == Map::<Seq<char>, MetadataValue>::empty(),
    {
        MetadataStore { table: NameTable::new() }
    }

    /// Puts a value under a key, in place of the value that may have been there.
    pub fn insert(&mut self, key: String, value: MetadataValue)
        ensures
            final(self)@ == old(self)@.insert(key@, value),
    {
        self.table.insert(key, value)
    }

    /// The value under a key.
    pub fn get(&self, key: &str) -> (r: Option<&MetadataValue>)
        ensures
            match r {
                Some(v) => self@.contains_key(key@) && *v == self@[key@],
                None => !self@.contains_key(key@),
            },
    {
        self.table.get(key)
    }

    /// The integer under a key.
    pub fn get_u32(&self, key: &str) -> (r: Option<u32>)
        ensures
            r == meta_u32(self@, key@),
    {
        match self.get(key) {
            Some(v) => v.as_u32(),
            None => None,
        }
    }

    /// The pattern of the number under a key.
    pub fn get_f32(&self, key: &str) -> (r: Option<u32>)
        ensures
            r == meta_f32(self@, key@),
    {
        match self.get(key) {
            Some(MetadataValue::Float32(b)) => Some(*b),
            _ => None,
        }
    }

    /// The text under a key.
    pub fn get_string(&self, key: &str) -> (r: Option<&String>)
        ensures
            match r {
                Some(s) => meta_text(self@, key@) == Some(s@),
                None => meta_text(self@, key@) is None,
            },
    {
        match self.get(key) {
            Some(MetadataValue::String(s)) => Some(s),
            _ => None,
        }
    }

    /// The integer under a key, or a default.
    pub fn usize_or(&self, key: &str, default: usize) -> (r: usize)
        ensures
            r == size_or(self@, key@, default),
    {
        match self.get_u32(key) {
            Some(v) => v as usize,
            None => default,
        }
    }

    /// The pattern of the number under a key, or a default.
    pub fn f32_or(&self, key: &str, default: u32) -> (r: u32)
        ensures
            r == bits_or(self@, key@, default),
    {
        match self.get_f32(key) {
            Some(b) => b,
            None => default,
        }
    }
}

/// A value that was put under a key is read back, whatever its kind, and the
/// values under other keys stay as they were.
pub proof fn law_insert_then_get(
    m: MetadataMap,
    key: Seq<char>,
    value: MetadataValue,
    other: Seq<char>,
)
    ensures
        meta_u32(m.insert(key, value), key) == value.u32_value(),
        value matches MetadataValue::Float32(b) ==> meta_f32(m.insert(key, value), key) == Some(b),
        value matches MetadataValue::String(s) ==> meta_text(m.insert(key, value), key) == Some(s@),
        other != key ==> {
            &&& meta_u32(m.insert(key, value), other) == meta_u32(m, other)
            &&& meta_f32(m.insert(key, value), other) == meta_f32(m, other)
            &&& meta_text(m.insert(key, value), other) == meta_text(m, other)
        },
{
}

/// A key has an integer, a number or a text exactly where the value under it is
/// of that kind; the value is taken as it is, and a default counts only where
/// there is none.
pub proof fn law_values_are_read_by_kind(m: MetadataMap, key: Seq<char>, size: usize, bits: u32)
    ensures
        m.contains_key(key) ==> (m[key] matches MetadataValue::Uint32(v) ==> meta_u32(m, key)
            == Some(v) && size_or(m, key, size) == v),
        m.contains_key(key) ==> (m[key] matches MetadataValue::Float32(b) ==> meta_f32(m, key)
            == Some(b) && bits_or(m, key, bits) == b),
        m.contains_key(key) ==> (m[key] matches MetadataValue::String(s) ==> meta_text(m, key)
            == Some(s@)),
        !m.contains_key(key) || !(m[key] is Uint32) ==> meta_u32(m, key) is None && size_or(
            m,
            key,
            size,
        ) == size,
        !m.contains_key(key) || !(m[key] is Float32) ==> meta_f32(m, key) is None && bits_or(
            m,
            key,
            bits,
        ) == bits,
        !m.contains_key(key) || !(m[key] is String) ==> meta_text(m, key) is None,
{
}

} // verus!
