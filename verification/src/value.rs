//! The generic, self-describing value tree and its mathematical model.

use crate::error::{DecodeError, Mismatch};
use crate::wire::Major;
use vstd::prelude::*;

verus! {

/// The model of a value tree: what a [`Value`] means, with sequences in
/// place of vectors.
pub enum Term {
    U64(u64),
    I64(i64),
    Bytes(Seq<u8>),
    Text(Seq<char>),
    Array(Seq<Term>),
    IArray(Seq<Term>),
    Object(Seq<(Term, Term)>),
    IObject(Seq<(Term, Term)>),
    Tag(u64, Box<Term>),
    Bool(bool),
    Null,
}

/// A generic self-describing value.
#[derive(Debug, PartialEq)]
pub enum Value {
    U64(u64),
    I64(i64),
    Bytes(Vec<u8>),
    Text(String),
    /// A sequence whose length is declared up front.
    Array(Vec<Value>),
    /// A sequence that ends at an explicit break.
    IArray(Vec<Value>),
    /// A mapping, as its entries in the order in which they were written.
    Object(Vec<(Value, Value)>),
    /// A mapping that ends at an explicit break.
    IObject(Vec<(Value, Value)>),
    Tag(u64, Box<Value>),
    Bool(bool),
    Null,
}

impl Value {
    /// The model of a value: the same tree, level by level.
    pub open spec fn model(self) -> Term
        decreases self,
    {
        match self {
            Value::U64(n) => Term::U64(n),
            Value::I64(n) => Term::I64(n),
            Value::Bytes(b) => Term::Bytes(b@),
            Value::Text(t) => Term::Text(t@),
            Value::Array(items) => Term::Array(models(items@)),
            Value::IArray(items) => Term::IArray(models(items@)),
            Value::Object(entries) => Term::Object(entry_models(entries@)),
            Value::IObject(entries) => Term::IObject(entry_models(entries@)),
            Value::Tag(t, inner) => Term::Tag(t, Box::new(inner.model())),
            Value::Bool(b) => Term::Bool(b),
            Value::Null => Term::Null,
        }
    }
}

/// The models of a sequence of values, in order.
pub open spec fn models(items: Seq<Value>) -> Seq<Term>
    decreases items,
{
    Seq::new(
        items.len(),
        |i: int|
            if 0 <= i < items.len() {
                items[i].model()
            } else {
                Term::Null
            },
    )
}

/// The models of a sequence of key and value pairs, in order.
pub open spec fn entry_models(entries: Seq<(Value, Value)>) -> Seq<(Term, Term)>
    decreases entries,
{
    Seq::new(
        entries.len(),
        |i: int|
            if 0 <= i < entries.len() {
                (entries[i].0.model(), entries[i].1.model())
            } else {
                (Term::Null, Term::Null)
            },
    )
}

/// A copy of a byte string.
pub fn copy_bytes(bytes: &Vec<u8>) -> (r: Vec<u8>)
    ensures
        r@ == bytes@,
{
    let mut out: Vec<u8> = Vec::new();
    let mut i: usize = 0;
    while i < bytes.len()
        invariant
            i <= bytes.len(),
            out@ == bytes@.take(i as int),
        decreases bytes.len() - i,
    {
        out.push(bytes[i]);
        i += 1;
    }
    out
}

impl Value {
    /// A deep copy: a value with the same model.
    pub fn duplicate(&self) -> (r: Value)
        ensures
            r@ == self@,
        decreases self,
    {
        match self {
            Value::U64(n) => Value::U64(*n),
            Value::I64(n) => Value::I64(*n),
            Value::Bytes(b) => Value::Bytes(copy_bytes(b)),
            Value::Text(t) => Value::Text(t.clone()),
            Value::Array(items) => {
                let copies = duplicate_all(items);
                Value::Array(copies)
            },
            Value::IArray(items) => {
                let copies = duplicate_all(items);
                Value::IArray(copies)
            },
            Value::Object(entries) => {
                let copies = duplicate_entries(entries);
                Value::Object(copies)
            },
            Value::IObject(entries) => {
                let copies = duplicate_entries(entries);
                Value::IObject(copies)
            },
            Value::Tag(t, inner) => Value::Tag(*t, Box::new(inner.duplicate())),
            Value::Bool(b) => Value::Bool(*b),
            Value::Null => Value::Null,
        }
    }
}

/// Deep copies of all the values of a vector, in order.
pub fn duplicate_all(items: &Vec<Value>) -> (r: Vec<Value>)
    ensures
        models(r@) == models(items@),
    decreases items,
{
    let mut out: Vec<Value> = Vec::new();
    let mut i: usize = 0;
    while i < items.len()
        invariant
            i <= items.len(),
            out@.len() == i,
            forall|j: int| 0 <= j < i ==> (#[trigger] out@[j]).model() == items@[j].model(),
        decreases items.len() - i,
    {
        let copy = items[i].duplicate();
        out.push(copy);
        i += 1;
    }
    out
}

/// Deep copies of all the entries of a mapping, in order.
pub fn duplicate_entries(entries: &Vec<(Value, Value)>) -> (r: Vec<(Value, Value)>)
    ensures
        entry_models(r@) == entry_models(entries@),
    decreases entries,
{
    let mut out: Vec<(Value, Value)> = Vec::new();
    let mut i: usize = 0;
    while i < entries.len()
        invariant
            i <= entries.len(),
            out@.len() == i,
            forall|j: int|
                0 <= j < i ==> (#[trigger] out@[j]).0.model() == entries@[j].0.model()
                    && out@[j].1.model() == entries@[j].1.model(),
        decreases entries.len() - i,
    {
        let key = entries[i].0.duplicate();
        let value = entries[i].1.duplicate();
        out.push((key, value));
        i += 1;
    }
    out
}

/// The major type under which a value is written.
pub open spec fn term_major(t: Term) -> Major {
    match t {
        Term::U64(_) => Major::UnsignedInteger,
        Term::I64(_) => Major::NegativeInteger,
        Term::Bytes(_) => Major::Bytes,
        Term::Text(_) => Major::Text,
        Term::Array(_) => Major::Array,
        Term::IArray(_) => Major::Array,
        Term::Object(_) => Major::Object,
        Term::IObject(_) => Major::Object,
        Term::Tag(_, _) => Major::Tag,
        Term::Bool(_) => Major::Special,
        Term::Null => Major::Special,
    }
}

/// The failure of a value that is of another kind than `expected`.
pub open spec fn wrong_kind(expected: Major, t: Term) -> DecodeError {
    DecodeError::StructuralMismatch(Mismatch::WrongType { expected, found: term_major(t) })
}

/// The elements of a definite-length sequence.
pub open spec fn spec_elements(t: Term) -> Result<Seq<Term>, DecodeError> {
    match t {
        Term::Array(items) => Ok(items),
        _ => Err(wrong_kind(Major::Array, t)),
    }
}

/// The elements of an indefinite-length sequence.
pub open spec fn spec_open_elements(t: Term) -> Result<Seq<Term>, DecodeError> {
    match t {
        Term::IArray(items) => Ok(items),
        _ => Err(wrong_kind(Major::Array, t)),
    }
}

/// The unsigned integer that a value holds.
pub open spec fn spec_u64(t: Term) -> Result<u64, DecodeError> {
    match t {
        Term::U64(v) => Ok(v),
        _ => Err(wrong_kind(Major::UnsignedInteger, t)),
    }
}

/// The unsigned integer that a value holds, where it fits in 32 bits.
pub open spec fn spec_u32(t: Term) -> Result<u32, DecodeError> {
    match spec_u64(t) {
        Ok(v) => if v <= u32::MAX {
            Ok(v as u32)
        } else {
            Err(DecodeError::StructuralMismatch(Mismatch::OutOfRange { found: v }))
        },
        Err(e) => Err(e),
    }
}

/// The content of the byte string that a value holds.
pub open spec fn spec_byte_content(t: Term) -> Result<Seq<u8>, DecodeError> {
    match t {
        Term::Bytes(b) => Ok(b),
        _ => Err(wrong_kind(Major::Bytes, t)),
    }
}

impl Value {
    /// The major type under which this value is written.
    pub fn major(&self) -> (r: Major)
        ensures
            r == term_major(self@),
    {
        match self {
            Value::U64(_) => Major::UnsignedInteger,
            Value::I64(_) => Major::NegativeInteger,
            Value::Bytes(_) => Major::Bytes,
            Value::Text(_) => Major::Text,
            Value::Array(_) => Major::Array,
            Value::IArray(_) => Major::Array,
            Value::Object(_) => Major::Object,
            Value::IObject(_) => Major::Object,
            Value::Tag(_, _) => Major::Tag,
            Value::Bool(_) => Major::Special,
            Value::Null => Major::Special,
        }
    }

    fn wrong_kind(&self, expected: Major) -> (r: DecodeError)
        ensures
            r == wrong_kind(expected, self@),
    {
        DecodeError::StructuralMismatch(Mismatch::WrongType { expected, found: self.major() })
    }

    /// The elements of a definite-length sequence.
    pub fn array(self) -> (r: Result<Vec<Value>, DecodeError>)
        ensures
            match spec_elements(self@) {
                Ok(items) => r matches Ok(v) && models(v@) == items,
                Err(e) => r == Err::<Vec<Value>, DecodeError>(e),
            },
    {
        match self {
            Value::Array(items) => Ok(items),
            other => Err(other.wrong_kind(Major::Array)),
        }
    }

    /// The elements of an indefinite-length sequence.
    pub fn iarray(self) -> (r: Result<Vec<Value>, DecodeError>)
        ensures
            match spec_open_elements(self@) {
                Ok(items) => r matches Ok(v) && models(v@) == items,
                Err(e) => r == Err::<Vec<Value>, DecodeError>(e),
            },
    {
        match self {
            Value::IArray(items) => Ok(items),
            other => Err(other.wrong_kind(Major::Array)),
        }
    }

    /// The unsigned integer that this value holds.
    pub fn u64(self) -> (r: Result<u64, DecodeError>)
        ensures
            r == spec_u64(self@),
    {
        match self {
            Value::U64(v) => Ok(v),
            other => Err(other.wrong_kind(Major::UnsignedInteger)),
        }
    }

    /// The unsigned integer that this value holds, where it fits in 32
    /// bits.
    pub fn u32(self) -> (r: Result<u32, DecodeError>)
        ensures
            r == spec_u32(self@),
    {
        match self.u64() {
            Ok(v) => {
                if v <= 0xffff_ffff {
                    Ok(v as u32)
                } else {
                    Err(DecodeError::StructuralMismatch(Mismatch::OutOfRange { found: v }))
                }
            },
            Err(e) => Err(e),
        }
    }

    /// The content of the byte string that this value holds.
    pub fn bytes(self) -> (r: Result<Vec<u8>, DecodeError>)
        ensures
            match spec_byte_content(self@) {
                Ok(content) => r matches Ok(v) && v@ == content,
                Err(e) => r == Err::<Vec<u8>, DecodeError>(e),
            },
    {
        match self {
            Value::Bytes(b) => Ok(b),
            other => Err(other.wrong_kind(Major::Bytes)),
        }
    }
}

/// Takes the first element out of what is left of a sequence: `Truncated`
/// where nothing is left.
pub fn take_first(items: &mut Vec<Value>) -> (r: Result<Value, DecodeError>)
    ensures
        old(items)@.len() == 0 ==> r == Err::<Value, DecodeError>(DecodeError::Truncated)
            && final(items)@ == old(items)@,
        old(items)@.len() > 0 ==> (r matches Ok(v) && v@ == models(old(items)@)[0]),
        old(items)@.len() > 0 ==> models(final(items)@) == models(old(items)@).skip(1),
{
    if items.len() == 0 {
        Err(DecodeError::Truncated)
    } else {
        let first = items.remove(0);
        Ok(first)
    }
}

/// The values of a vector in reverse order, so that popping gives them
/// back first to last.
pub fn reversed(items: Vec<Value>) -> (r: Vec<Value>)
    ensures
        r@.len() == items@.len(),
        forall|j: int| 0 <= j < r@.len() ==> (#[trigger] r@[j])@ == items@[items@.len() - 1 - j]@,
{
    let mut items = items;
    let mut out: Vec<Value> = Vec::new();
    let ghost all = items@;
    while items.len() > 0
        invariant
            items@.len() + out@.len() == all.len(),
            forall|j: int| 0 <= j < items@.len() ==> (#[trigger] items@[j]) == all[j],
            forall|j: int| 0 <= j < out@.len() ==> (#[trigger] out@[j])@ == all[all.len() - 1 - j]@,
        decreases items@.len(),
    {
        let last = items.pop().unwrap();
        out.push(last);
    }
    out
}

impl Clone for Value {
    fn clone(&self) -> (r: Value)
        ensures
            r@ == self@,
    {
        self.duplicate()
    }
}

impl View for Value {
    type V = Term;

    open spec fn view(&self) -> Term {
        self.model()
    }
}

} // verus!
