//! The materializer: converts the key-value pairs of a transient record into
//! fully owned entries.
//!
//! Each `emit_*` method appends exactly one owned entry. Primitive values are
//! copied; string and pre-rendered formatted-argument values are stored as
//! owned text; absence is kept as a distinct marker. Materialization of a
//! well-formed record never fails, so none of the methods returns an error.

use vstd::prelude::*;

use crate::record::{KvPair, OwnedValue};

verus! {

/// Accumulates the owned key-value entries of one record, in emission order.
pub struct ToSendSerializer {
    kv: Vec<KvPair>,
}

impl ToSendSerializer {
    /// The entries emitted so far, in emission order.
    pub closed spec fn entries(&self) -> Seq<KvPair> {
        self.kv@
    }

    /// A serializer with no entries.
    pub fn new() -> (r: Self)
        ensures
            r.entries() == Seq::<KvPair>::empty(),
    {
        ToSendSerializer { kv: Vec::new() }
    }

    /// Hands out the accumulated owned entries.
    pub fn finish(self) -> (r: Vec<KvPair>)
        ensures
            r@ == self.entries(),
    {
        self.kv
    }

    /// Appends one owned entry.
    fn emit(&mut self, key: String, value: OwnedValue)
        ensures
            final(self).entries() == old(self).entries().push(
                (KvPair { key: key, value: value }),
            ),
    {
        self.kv.push(KvPair { key, value });
    }

    /// Records a boolean value, copied.
    pub fn emit_bool(&mut self, key: String, val: bool)
        ensures
            final(self).entries() == old(self).entries().push(
                (KvPair { key: key, value: OwnedValue::Bool(val) }),
            ),
    {
        self.emit(key, OwnedValue::Bool(val));
    }

    /// Records a unit value.
    pub fn emit_unit(&mut self, key: String)
        ensures
            final(self).entries() == old(self).entries().push(
                (KvPair { key: key, value: OwnedValue::Unit }),
            ),
    {
        self.emit(key, OwnedValue::Unit);
    }

    /// Records an absent value, as a distinct marker rather than text.
    pub fn emit_none(&mut self, key: String)
        ensures
            final(self).entries() == old(self).entries().push(
                (KvPair { key: key, value: OwnedValue::Absent }),
            ),
    {
        self.emit(key, OwnedValue::Absent);
    }

    /// Records a character value, copied.
    pub fn emit_char(&mut self, key: String, val: char)
        ensures
            final(self).entries() == old(self).entries().push(
                (KvPair { key: key, value: OwnedValue::Char(val) }),
            ),
    {
        self.emit(key, OwnedValue::Char(val));
    }

    /// Records a `u8` value, copied.
    pub fn emit_u8(&mut self, key: String, val: u8)
        ensures
            final(self).entries() == old(self).entries().push(
                (KvPair { key: key, value: OwnedValue::U8(val) }),
            ),
    {
        self.emit(key, OwnedValue::U8(val));
    }

    /// Records an `i8` value, copied.
    pub fn emit_i8(&mut self, key: String, val: i8)
        ensures
            final(self).entries() == old(self).entries().push(
                (KvPair { key: key, value: OwnedValue::I8(val) }),
            ),
    {
        self.emit(key, OwnedValue::I8(val));
    }

    /// Records a `u16` value, copied.
    pub fn emit_u16(&mut self, key: String, val: u16)
        ensures
            final(self).entries() == old(self).entries().push(
                (KvPair { key: key, value: OwnedValue::U16(val) }),
            ),
    {
        self.emit(key, OwnedValue::U16(val));
    }

    /// Records an `i16` value, copied.
    pub fn emit_i16(&mut self, key: String, val: i16)
        ensures
            final(self).entries() == old(self).entries().push(
                (KvPair { key: key, value: OwnedValue::I16(val) }),
            ),
    {
        self.emit(key, OwnedValue::I16(val));
    }

    /// Records a `u32` value, copied.
    pub fn emit_u32(&mut self, key: String, val: u32)
        ensures
            final(self).entries() == old(self).entries().push(
                (KvPair { key: key, value: OwnedValue::U32(val) }),
            ),
    {
        self.emit(key, OwnedValue::U32(val));
    }

    /// Records an `i32` value, copied.
    pub fn emit_i32(&mut self, key: String, val: i32)
        ensures
            final(self).entries() == old(self).entries().push(
                (KvPair { key: key, value: OwnedValue::I32(val) }),
            ),
    {
        self.emit(key, OwnedValue::I32(val));
    }

    /// Records a `u64` value, copied.
    pub fn emit_u64(&mut self, key: String, val: u64)
        ensures
            final(self).entries() == old(self).entries().push(
                (KvPair { key: key, value: OwnedValue::U64(val) }),
            ),
    {
        self.emit(key, OwnedValue::U64(val));
    }

    /// Records an `i64` value, copied.
    pub fn emit_i64(&mut self, key: String, val: i64)
        ensures
            final(self).entries() == old(self).entries().push(
                (KvPair { key: key, value: OwnedValue::I64(val) }),
            ),
    {
        self.emit(key, OwnedValue::I64(val));
    }

    /// Records a `usize` value, copied.
    pub fn emit_usize(&mut self, key: String, val: usize)
        ensures
            final(self).entries() == old(self).entries().push(
                (KvPair { key: key, value: OwnedValue::Usize(val) }),
            ),
    {
        self.emit(key, OwnedValue::Usize(val));
    }

    /// Records an `isize` value, copied.
    pub fn emit_isize(&mut self, key: String, val: isize)
        ensures
            final(self).entries() == old(self).entries().push(
                (KvPair { key: key, value: OwnedValue::Isize(val) }),
            ),
    {
        self.emit(key, OwnedValue::Isize(val));
    }

    /// Records a string value, stored as an owned buffer immediately.
    pub fn emit_str(&mut self, key: String, val: String)
        ensures
            final(self).entries() == old(self).entries().push(
                (KvPair { key: key, value: OwnedValue::Str(val) }),
            ),
    {
        self.emit(key, OwnedValue::Str(val));
    }

    /// Records a formatted-argument value. The caller renders the arguments at
    /// the call site, so the formatting result is captured now, never deferred
    /// past the call that borrowed the data.
    pub fn emit_arguments(&mut self, key: String, rendered: String)
        ensures
            final(self).entries() == old(self).entries().push(
                (KvPair { key: key, value: OwnedValue::Str(rendered) }),
            ),
    {
        self.emit(key, OwnedValue::Str(rendered));
    }
}

} // verus!
