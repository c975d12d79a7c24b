//! The structured-value decoder: a whole value tree read from a byte
//! cursor, whatever its shape.

use crate::error::DecodeError;
use crate::stream::{
    array, at_end, bytes, cbor_type, collected_then, negative_integer, spec_array, spec_byte_string, spec_map,
    spec_complete, spec_negative_integer, spec_special_item, spec_tag_head, spec_text_string,
    spec_unsigned_integer, special, tag, text, unsigned_integer,
};
use crate::value::{entry_models, models, Term, Value};
use crate::wire::{cursor_over, major_of, peek_len, unread, Len, Major, Special};
use cbor_event::de::RawCbor;
use vstd::prelude::*;

verus! {

/// The value that a special item stands for: a boolean or null. Any other
/// special item has no place in a value tree.
pub open spec fn spec_special_value(item: Special) -> Result<Term, DecodeError> {
    match item {
        Special::Bool(b) => Ok(Term::Bool(b)),
        Special::Null => Ok(Term::Null),
        other => Err(DecodeError::UnexpectedToken(other)),
    }
}

/// Whether the bytes start with a break.
pub open spec fn starts_with_break(s: Seq<u8>) -> bool {
    s.len() > 0 && s[0] == 0xffu8
}

/// The value at the front of `s`, and the bytes left after it.
///
/// Where a part of the value fails, the whole fails with that failure, and
/// the bytes left are those at which the failing read stopped.
pub open spec fn spec_value(s: Seq<u8>) -> (Result<Term, DecodeError>, Seq<u8>)
    decreases s.len(), 0nat,
{
    if s.len() == 0 {
        (Err(DecodeError::Truncated), s)
    } else {
        match major_of(s[0]) {
            Major::UnsignedInteger => match spec_unsigned_integer(s) {
                (Ok(v), rest) => (Ok(Term::U64(v)), rest),
                (Err(e), rest) => (Err(e), rest),
            },
            Major::NegativeInteger => match spec_negative_integer(s) {
                (Ok(v), rest) => (Ok(Term::I64(v)), rest),
                (Err(e), rest) => (Err(e), rest),
            },
            Major::Bytes => match spec_byte_string(s) {
                (Ok(content), rest) => (Ok(Term::Bytes(content)), rest),
                (Err(e), rest) => (Err(e), rest),
            },
            Major::Text => match spec_text_string(s) {
                (Ok(content), rest) => (Ok(Term::Text(content)), rest),
                (Err(e), rest) => (Err(e), rest),
            },
            Major::Array => match spec_array(s) {
                (Ok(Len::Len(n)), rest) => match spec_items(rest, n as nat) {
                    (Ok(items), rest) => (Ok(Term::Array(items)), rest),
                    (Err(e), rest) => (Err(e), rest),
                },
                (Ok(Len::Indefinite), rest) => match spec_open_items(rest) {
                    (Ok(items), rest) => (Ok(Term::IArray(items)), rest),
                    (Err(e), rest) => (Err(e), rest),
                },
                (Err(e), rest) => (Err(e), rest),
            },
            Major::Object => match spec_map(s) {
                (Ok(Len::Len(n)), rest) => match spec_entries(rest, n as nat) {
                    (Ok(entries), rest) => (Ok(Term::Object(entries)), rest),
                    (Err(e), rest) => (Err(e), rest),
                },
                (Ok(Len::Indefinite), rest) => match spec_open_entries(rest) {
                    (Ok(entries), rest) => (Ok(Term::IObject(entries)), rest),
                    (Err(e), rest) => (Err(e), rest),
                },
                (Err(e), rest) => (Err(e), rest),
            },
            Major::Tag => match spec_tag_head(s) {
                (Ok(t), rest) => match spec_value(rest) {
                    (Ok(inner), rest) => (Ok(Term::Tag(t, Box::new(inner))), rest),
                    (Err(e), rest) => (Err(e), rest),
                },
                (Err(e), rest) => (Err(e), rest),
            },
            Major::Special => match spec_special_item(s) {
                (Ok(item), rest) => (spec_special_value(item), rest),
                (Err(e), rest) => (Err(e), rest),
            },
        }
    }
}

/// The next `n` values at the front of `s`, in order.
///
/// A value that is read always takes bytes ([`lemma_value_consumes`]), so
/// the test on the bytes left never fails; it shows that the reading ends.
pub open spec fn spec_items(s: Seq<u8>, n: nat) -> (Result<Seq<Term>, DecodeError>, Seq<u8>)
    decreases s.len(), 1nat,
{
    if n == 0 {
        (Ok(Seq::empty()), s)
    } else {
        match spec_value(s) {
            (Ok(first), rest) => if rest.len() < s.len() {
                collected_then(seq![first], spec_items(rest, (n - 1) as nat))
            } else {
                (Err(DecodeError::Truncated), rest)
            },
            (Err(e), rest) => (Err(e), rest),
        }
    }
}

/// The values at the front of `s` up to a break, in order; the break is
/// consumed.
pub open spec fn spec_open_items(s: Seq<u8>) -> (Result<Seq<Term>, DecodeError>, Seq<u8>)
    decreases s.len(), 1nat,
{
    if s.len() == 0 {
        (Err(DecodeError::Truncated), s)
    } else if starts_with_break(s) {
        (Ok(Seq::empty()), s.skip(1))
    } else {
        match spec_value(s) {
            (Ok(first), rest) => if rest.len() < s.len() {
                collected_then(seq![first], spec_open_items(rest))
            } else {
                (Err(DecodeError::Truncated), rest)
            },
            (Err(e), rest) => (Err(e), rest),
        }
    }
}

/// The next `n` pairs of a key and a value at the front of `s`, in order.
pub open spec fn spec_entries(s: Seq<u8>, n: nat) -> (
    Result<Seq<(Term, Term)>, DecodeError>,
    Seq<u8>,
)
    decreases s.len(), 1nat,
{
    if n == 0 {
        (Ok(Seq::empty()), s)
    } else {
        match spec_value(s) {
            (Ok(key), rest) => if rest.len() < s.len() {
                match spec_value(rest) {
                    (Ok(value), rest) => if rest.len() < s.len() {
                        collected_then(seq![(key, value)], spec_entries(rest, (n - 1) as nat))
                    } else {
                        (Err(DecodeError::Truncated), rest)
                    },
                    (Err(e), rest) => (Err(e), rest),
                }
            } else {
                (Err(DecodeError::Truncated), rest)
            },
            (Err(e), rest) => (Err(e), rest),
        }
    }
}

/// The pairs of a key and a value at the front of `s` up to a break, in
/// order; the break is consumed.
pub open spec fn spec_open_entries(s: Seq<u8>) -> (
    Result<Seq<(Term, Term)>, DecodeError>,
    Seq<u8>,
)
    decreases s.len(), 1nat,
{
    if s.len() == 0 {
        (Err(DecodeError::Truncated), s)
    } else if starts_with_break(s) {
        (Ok(Seq::empty()), s.skip(1))
    } else {
        match spec_value(s) {
            (Ok(key), rest) => if rest.len() < s.len() {
                match spec_value(rest) {
                    (Ok(value), rest) => if rest.len() < s.len() {
                        collected_then(seq![(key, value)], spec_open_entries(rest))
                    } else {
                        (Err(DecodeError::Truncated), rest)
                    },
                    (Err(e), rest) => (Err(e), rest),
                }
            } else {
                (Err(DecodeError::Truncated), rest)
            },
            (Err(e), rest) => (Err(e), rest),
        }
    }
}

/// Whether the next item is a break; nothing is consumed.
pub fn at_break(raw: &RawCbor) -> (r: bool)
    ensures
        r == starts_with_break(unread(*raw)),
{
    match cbor_type(raw) {
        Ok(Major::Special) => match peek_len(raw) {
            Ok((Len::Indefinite, _)) => true,
            _ => false,
        },
        _ => false,
    }
}

fn special_value(item: Special) -> (r: Result<Value, DecodeError>)
    ensures
        match spec_special_value(item) {
            Ok(t) => r matches Ok(v) && v@ == t,
            Err(e) => r == Err::<Value, DecodeError>(e),
        },
{
    match item {
        Special::Bool(b) => Ok(Value::Bool(b)),
        Special::Null => Ok(Value::Null),
        other => Err(DecodeError::UnexpectedToken(other)),
    }
}

impl Value {
    /// Reads one value, whatever its shape, with all that it holds.
    pub fn deserialize(raw: &mut RawCbor) -> (r: Result<Value, DecodeError>)
        ensures
            match spec_value(unread(*old(raw))).0 {
                Ok(t) => r matches Ok(v) && v@ == t,
                Err(e) => r == Err::<Value, DecodeError>(e),
            },
            unread(*final(raw)) == spec_value(unread(*old(raw))).1,
            unread(*final(raw)).len() <= unread(*old(raw)).len(),
            r is Ok ==> unread(*final(raw)).len() < unread(*old(raw)).len(),
        decreases unread(*old(raw)).len(), 0nat,
    {
        let major = match cbor_type(raw) {
            Ok(major) => major,
            Err(e) => {
                return Err(e);
            },
        };
        match major {
            Major::UnsignedInteger => match unsigned_integer(raw) {
                Ok(v) => Ok(Value::U64(v)),
                Err(e) => Err(e),
            },
            Major::NegativeInteger => match negative_integer(raw) {
                Ok(v) => Ok(Value::I64(v)),
                Err(e) => Err(e),
            },
            Major::Bytes => match bytes(raw) {
                Ok(content) => Ok(Value::Bytes(content)),
                Err(e) => Err(e),
            },
            Major::Text => match text(raw) {
                Ok(content) => Ok(Value::Text(content)),
                Err(e) => Err(e),
            },
            Major::Array => match array(raw) {
                Ok(Len::Len(n)) => match deserialize_items(raw, n) {
                    Ok(items) => Ok(Value::Array(items)),
                    Err(e) => Err(e),
                },
                Ok(Len::Indefinite) => match deserialize_open_items(raw) {
                    Ok(items) => Ok(Value::IArray(items)),
                    Err(e) => Err(e),
                },
                Err(e) => Err(e),
            },
            Major::Object => match crate::stream::map(raw) {
                Ok(Len::Len(n)) => match deserialize_entries(raw, n) {
                    Ok(entries) => Ok(Value::Object(entries)),
                    Err(e) => Err(e),
                },
                Ok(Len::Indefinite) => match deserialize_open_entries(raw) {
                    Ok(entries) => Ok(Value::IObject(entries)),
                    Err(e) => Err(e),
                },
                Err(e) => Err(e),
            },
            Major::Tag => match tag(raw) {
                Ok(t) => match Value::deserialize(raw) {
                    Ok(inner) => Ok(Value::Tag(t, Box::new(inner))),
                    Err(e) => Err(e),
                },
                Err(e) => Err(e),
            },
            Major::Special => match special(raw) {
                Ok(item) => special_value(item),
                Err(e) => Err(e),
            },
        }
    }
}

impl Value {
    /// Decodes a value from bytes that hold it and nothing more.
    pub fn from_bytes(bytes: &[u8]) -> (r: Result<Value, DecodeError>)
        ensures
            match spec_complete(spec_value(bytes@)) {
                Ok(t) => r matches Ok(v) && v@ == t,
                Err(e) => r == Err::<Value, DecodeError>(e),
            },
    {
        let mut raw = cursor_over(bytes);
        match Value::deserialize(&mut raw) {
            Ok(v) => {
                if at_end(&raw) {
                    Ok(v)
                } else {
                    Err(DecodeError::TrailingData)
                }
            },
            Err(e) => Err(e),
        }
    }
}

fn deserialize_items(raw: &mut RawCbor, n: u64) -> (r: Result<Vec<Value>, DecodeError>)
    ensures
        match spec_items(unread(*old(raw)), n as nat).0 {
            Ok(items) => r matches Ok(v) && models(v@) == items,
            Err(e) => r == Err::<Vec<Value>, DecodeError>(e),
        },
        unread(*final(raw)) == spec_items(unread(*old(raw)), n as nat).1,
        unread(*final(raw)).len() <= unread(*old(raw)).len(),
    decreases unread(*old(raw)).len(), 1nat,
{
    let mut out: Vec<Value> = Vec::new();
    let mut i: u64 = 0;
    let ghost start = unread(*raw);
    while i < n
        invariant
            i <= n,
            start == unread(*old(raw)),
            unread(*raw).len() <= start.len(),
            spec_items(start, n as nat) == collected_then(
                models(out@),
                spec_items(unread(*raw), (n - i) as nat),
            ),
        decreases n - i,
    {
        let ghost before = models(out@);
        match Value::deserialize(raw) {
            Ok(v) => {
                proof {
                    let next = spec_items(unread(*raw), (n - i - 1) as nat);
                    if let Ok(more) = next.0 {
                        assert(before + (seq![v@] + more) =~= before.push(v@) + more);
                    }
                }
                out.push(v);
                assert(models(out@) =~= before.push(v@));
                i += 1;
            },
            Err(e) => {
                return Err(e);
            },
        }
    }
    Ok(out)
}

fn deserialize_open_items(raw: &mut RawCbor) -> (r: Result<Vec<Value>, DecodeError>)
    ensures
        match spec_open_items(unread(*old(raw))).0 {
            Ok(items) => r matches Ok(v) && models(v@) == items,
            Err(e) => r == Err::<Vec<Value>, DecodeError>(e),
        },
        unread(*final(raw)) == spec_open_items(unread(*old(raw))).1,
        unread(*final(raw)).len() <= unread(*old(raw)).len(),
    decreases unread(*old(raw)).len(), 1nat,
{
    let mut out: Vec<Value> = Vec::new();
    let ghost start = unread(*raw);
    loop
        invariant
            start == unread(*old(raw)),
            unread(*raw).len() <= start.len(),
            spec_open_items(start) == collected_then(
                models(out@),
                spec_open_items(unread(*raw)),
            ),
        decreases unread(*raw).len(),
    {
        let ghost before = models(out@);
        if at_break(raw) {
            match special(raw) {
                Ok(_) => {
                    return Ok(out);
                },
                Err(e) => {
                    return Err(e);
                },
            }
        }
        match Value::deserialize(raw) {
            Ok(v) => {
                proof {
                    let next = spec_open_items(unread(*raw));
                    if let Ok(more) = next.0 {
                        assert(before + (seq![v@] + more) =~= before.push(v@) + more);
                    }
                }
                out.push(v);
                assert(models(out@) =~= before.push(v@));
            },
            Err(e) => {
                return Err(e);
            },
        }
    }
}

fn deserialize_entries(raw: &mut RawCbor, n: u64) -> (r: Result<
    Vec<(Value, Value)>,
    DecodeError,
>)
    ensures
        match spec_entries(unread(*old(raw)), n as nat).0 {
            Ok(entries) => r matches Ok(v) && entry_models(v@) == entries,
            Err(e) => r == Err::<Vec<(Value, Value)>, DecodeError>(e),
        },
        unread(*final(raw)) == spec_entries(unread(*old(raw)), n as nat).1,
        unread(*final(raw)).len() <= unread(*old(raw)).len(),
    decreases unread(*old(raw)).len(), 1nat,
{
    let mut out: Vec<(Value, Value)> = Vec::new();
    let mut i: u64 = 0;
    let ghost start = unread(*raw);
    while i < n
        invariant
            i <= n,
            start == unread(*old(raw)),
            unread(*raw).len() <= start.len(),
            spec_entries(start, n as nat) == collected_then(
                entry_models(out@),
                spec_entries(unread(*raw), (n - i) as nat),
            ),
        decreases n - i,
    {
        let ghost before = entry_models(out@);
        let key = match Value::deserialize(raw) {
            Ok(v) => v,
            Err(e) => {
                return Err(e);
            },
        };
        let value = match Value::deserialize(raw) {
            Ok(v) => v,
            Err(e) => {
                return Err(e);
            },
        };
        proof {
            let next = spec_entries(unread(*raw), (n - i - 1) as nat);
            if let Ok(more) = next.0 {
                assert(before + (seq![(key@, value@)] + more) =~= before.push((key@, value@))
                    + more);
            }
        }
        out.push((key, value));
        assert(entry_models(out@) =~= before.push((key@, value@)));
        i += 1;
    }
    Ok(out)
}

fn deserialize_open_entries(raw: &mut RawCbor) -> (r: Result<Vec<(Value, Value)>, DecodeError>)
    ensures
        match spec_open_entries(unread(*old(raw))).0 {
            Ok(entries) => r matches Ok(v) && entry_models(v@) == entries,
            Err(e) => r == Err::<Vec<(Value, Value)>, DecodeError>(e),
        },
        unread(*final(raw)) == spec_open_entries(unread(*old(raw))).1,
        unread(*final(raw)).len() <= unread(*old(raw)).len(),
    decreases unread(*old(raw)).len(), 1nat,
{
    let mut out: Vec<(Value, Value)> = Vec::new();
    let ghost start = unread(*raw);
    loop
        invariant
            start == unread(*old(raw)),
            unread(*raw).len() <= start.len(),
            spec_open_entries(start) == collected_then(
                entry_models(out@),
                spec_open_entries(unread(*raw)),
            ),
        decreases unread(*raw).len(),
    {
        let ghost before = entry_models(out@);
        if at_break(raw) {
            match special(raw) {
                Ok(_) => {
                    return Ok(out);
                },
                Err(e) => {
                    return Err(e);
                },
            }
        }
        let key = match Value::deserialize(raw) {
            Ok(v) => v,
            Err(e) => {
                return Err(e);
            },
        };
        let value = match Value::deserialize(raw) {
            Ok(v) => v,
            Err(e) => {
                return Err(e);
            },
        };
        proof {
            let next = spec_open_entries(unread(*raw));
            if let Ok(more) = next.0 {
                assert(before + (seq![(key@, value@)] + more) =~= before.push((key@, value@))
                    + more);
            }
        }
        out.push((key, value));
        assert(entry_models(out@) =~= before.push((key@, value@)));
    }
}

/// A value that is read takes at least one byte, and no read gives bytes
/// back.
pub proof fn lemma_value_consumes(s: Seq<u8>)
    ensures
        spec_value(s).1.len() <= s.len(),
        spec_value(s).0 is Ok ==> spec_value(s).1.len() < s.len(),
    decreases s.len(), 0nat,
{
    if s.len() > 0 {
        match major_of(s[0]) {
            Major::Array => {
                match spec_array(s) {
                    (Ok(Len::Len(n)), rest) => {
                        lemma_items_consume(rest, n as nat);
                    },
                    (Ok(Len::Indefinite), rest) => {
                        lemma_open_items_consume(rest);
                    },
                    _ => {},
                }
            },
            Major::Object => {
                match spec_map(s) {
                    (Ok(Len::Len(n)), rest) => {
                        lemma_entries_consume(rest, n as nat);
                    },
                    (Ok(Len::Indefinite), rest) => {
                        lemma_open_entries_consume(rest);
                    },
                    _ => {},
                }
            },
            Major::Tag => {
                match spec_tag_head(s) {
                    (Ok(_), rest) => {
                        lemma_value_consumes(rest);
                    },
                    _ => {},
                }
            },
            _ => {},
        }
    }
}

/// Reading a number of values gives no bytes back, and gives as many values
/// as were asked for.
pub proof fn lemma_items_consume(s: Seq<u8>, n: nat)
    ensures
        spec_items(s, n).1.len() <= s.len(),
        spec_items(s, n).0 matches Ok(items) ==> items.len() == n,
    decreases s.len(), 1nat,
{
    if n > 0 {
        lemma_value_consumes(s);
        match spec_value(s) {
            (Ok(_), rest) => {
                if rest.len() < s.len() {
                    lemma_items_consume(rest, (n - 1) as nat);
                }
            },
            _ => {},
        }
    }
}

/// Reading values up to a break gives no bytes back.
pub proof fn lemma_open_items_consume(s: Seq<u8>)
    ensures
        spec_open_items(s).1.len() <= s.len(),
    decreases s.len(), 1nat,
{
    if s.len() > 0 && !starts_with_break(s) {
        lemma_value_consumes(s);
        match spec_value(s) {
            (Ok(_), rest) => {
                if rest.len() < s.len() {
                    lemma_open_items_consume(rest);
                }
            },
            _ => {},
        }
    }
}

/// Reading a number of entries gives no bytes back, and gives as many
/// entries as were asked for.
pub proof fn lemma_entries_consume(s: Seq<u8>, n: nat)
    ensures
        spec_entries(s, n).1.len() <= s.len(),
        spec_entries(s, n).0 matches Ok(entries) ==> entries.len() == n,
    decreases s.len(), 1nat,
{
    if n > 0 {
        lemma_value_consumes(s);
        match spec_value(s) {
            (Ok(_), rest) => {
                if rest.len() < s.len() {
                    lemma_value_consumes(rest);
                    match spec_value(rest) {
                        (Ok(_), rest) => {
                            if rest.len() < s.len() {
                                lemma_entries_consume(rest, (n - 1) as nat);
                            }
                        },
                        _ => {},
                    }
                }
            },
            _ => {},
        }
    }
}

/// Reading entries up to a break gives no bytes back.
pub proof fn lemma_open_entries_consume(s: Seq<u8>)
    ensures
        spec_open_entries(s).1.len() <= s.len(),
    decreases s.len(), 1nat,
{
    if s.len() > 0 && !starts_with_break(s) {
        lemma_value_consumes(s);
        match spec_value(s) {
            (Ok(_), rest) => {
                if rest.len() < s.len() {
                    lemma_value_consumes(rest);
                    match spec_value(rest) {
                        (Ok(_), rest) => {
                            if rest.len() < s.len() {
                                lemma_open_entries_consume(rest);
                            }
                        },
                        _ => {},
                    }
                }
            },
            _ => {},
        }
    }
}

} // verus!
