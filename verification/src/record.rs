//! The owned data model of a log record.
//!
//! Everything here holds plain owned values only, so a materialized record can
//! be moved to the worker with no remaining borrow.

use vstd::prelude::*;

verus! {

/// Severity of a log record.
#[derive(Clone, Copy, Debug, PartialEq, Eq, Structural)]
pub enum Level {
    Critical,
    Error,
    Warning,
    Info,
    Debug,
    Trace,
}

/// Owned source-location metadata of a record.
#[derive(Debug, PartialEq, Eq)]
pub struct Location {
    pub file: String,
    pub line: u32,
    pub column: u32,
    pub function: String,
    pub module: String,
}

/// One owned key-value value: every borrowed value a record may carry is
/// converted into one of these at materialization time. Strings and formatted
/// arguments are rendered to owned text immediately; absence is kept as a
/// distinct marker, not coerced to a string.
#[derive(Debug, PartialEq, Eq)]
pub enum OwnedValue {
    Bool(bool),
    Unit,
    Absent,
    Char(char),
    U8(u8),
    I8(i8),
    U16(u16),
    I16(i16),
    U32(u32),
    I32(i32),
    U64(u64),
    I64(i64),
    Usize(usize),
    Isize(isize),
    Str(String),
}

/// One owned key-value entry.
#[derive(Debug, PartialEq, Eq)]
pub struct KvPair {
    pub key: String,
    pub value: OwnedValue,
}

/// The fully owned, cross-thread-safe materialization of one log record:
/// owned message, level, owned location, owned tag, the key-value chain
/// inherited from the producing context, and the entries attached at the call
/// site.
#[derive(Debug, PartialEq, Eq)]
pub struct RecordData {
    pub msg: String,
    pub level: Level,
    pub location: Location,
    pub tag: String,
    pub logger_kvs: Vec<KvPair>,
    pub kvs: Vec<KvPair>,
}

/// A message on the hand-off queue: either one materialized record, or the
/// terminal signal. Exactly one terminal signal is ever sent, and it is always
/// the last message the worker accepts.
#[derive(Debug)]
pub enum AsyncMsg {
    Record(RecordData),
    Finish,
}

impl OwnedValue {
    /// An equal owned copy of this value.
    pub fn duplicate(&self) -> (r: Self)
        ensures
            r == *self,
    {
        match self {
            OwnedValue::Bool(v) => OwnedValue::Bool(*v),
            OwnedValue::Unit => OwnedValue::Unit,
            OwnedValue::Absent => OwnedValue::Absent,
            OwnedValue::Char(v) => OwnedValue::Char(*v),
            OwnedValue::U8(v) => OwnedValue::U8(*v),
            OwnedValue::I8(v) => OwnedValue::I8(*v),
            OwnedValue::U16(v) => OwnedValue::U16(*v),
            OwnedValue::I16(v) => OwnedValue::I16(*v),
            OwnedValue::U32(v) => OwnedValue::U32(*v),
            OwnedValue::I32(v) => OwnedValue::I32(*v),
            OwnedValue::U64(v) => OwnedValue::U64(*v),
            OwnedValue::I64(v) => OwnedValue::I64(*v),
            OwnedValue::Usize(v) => OwnedValue::Usize(*v),
            OwnedValue::Isize(v) => OwnedValue::Isize(*v),
            OwnedValue::Str(v) => OwnedValue::Str(v.clone()),
        }
    }
}

impl KvPair {
    /// An equal owned copy of this entry.
    pub fn duplicate(&self) -> (r: Self)
        ensures
            r == *self,
    {
        KvPair { key: self.key.clone(), value: self.value.duplicate() }
    }
}

/// An element-wise owned copy of a key-value chain.
pub fn duplicate_kvs(v: &Vec<KvPair>) -> (r: Vec<KvPair>)
    ensures
        r@ == v@,
{
    let mut r: Vec<KvPair> = Vec::new();
    let mut i: usize = 0;
    while i < v.len()
        invariant
            i <= v@.len(),
            r@ == v@.take(i as int),
        decreases v@.len() - i,
    {
        r.push(v[i].duplicate());
        assert(r@ =~= v@.take(i as int + 1));
        i = i + 1;
    }
    assert(r@ =~= v@);
    r
}

} // verus!
