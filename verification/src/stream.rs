//! The streaming decoder: reads of single items from a byte cursor, with
//! failures reported as [`DecodeError`]. Every read is stated as a function
//! from the unread bytes to a result and the bytes left after it.

use crate::error::{DecodeError, Mismatch};
use crate::wire::{
    major_of, peek_len, peek_type, read_array, read_bytes, read_map, read_negative, read_special,
    read_tag, read_text, read_unsigned, spec_bytes, spec_head, spec_negative, spec_special,
    spec_tag, spec_text, spec_unsigned, unread, unread_len, Len, Major, ReadError, Special,
};
use cbor_event::de::RawCbor;
use vstd::prelude::*;

verus! {

/// The decode failure that a failed read of an item of type `expected` at the
/// front of `s` stands for.
pub open spec fn lift(e: ReadError, expected: Major, s: Seq<u8>) -> DecodeError {
    match e {
        ReadError::NotEnough => DecodeError::Truncated,
        ReadError::WrongType => DecodeError::StructuralMismatch(
            Mismatch::WrongType { expected, found: major_of(s[0]) },
        ),
        ReadError::UnknownLenType(b) => DecodeError::StructuralMismatch(
            Mismatch::UnknownLenType(b),
        ),
        ReadError::IndefiniteLength => DecodeError::StructuralMismatch(Mismatch::IndefiniteLength),
        ReadError::InvalidText => DecodeError::StructuralMismatch(Mismatch::InvalidText),
    }
}

/// A read of an item of type `expected`, as a result and the bytes left: a
/// failed read leaves all of `s`.
pub open spec fn lifted<T>(s: Seq<u8>, expected: Major, read: Result<(T, nat), ReadError>) -> (
    Result<T, DecodeError>,
    Seq<u8>,
) {
    match read {
        Ok((v, n)) => (Ok(v), s.skip(n as int)),
        Err(e) => (Err(lift(e, expected, s)), s),
    }
}

/// Reading the head of an array.
pub open spec fn spec_array(s: Seq<u8>) -> (Result<Len, DecodeError>, Seq<u8>) {
    lifted(s, Major::Array, spec_head(s, Major::Array))
}

/// Reading the head of a map.
pub open spec fn spec_map(s: Seq<u8>) -> (Result<Len, DecodeError>, Seq<u8>) {
    lifted(s, Major::Object, spec_head(s, Major::Object))
}

/// Reading an unsigned integer.
pub open spec fn spec_unsigned_integer(s: Seq<u8>) -> (Result<u64, DecodeError>, Seq<u8>) {
    lifted(s, Major::UnsignedInteger, spec_unsigned(s))
}

/// Reading a special item.
pub open spec fn spec_special_item(s: Seq<u8>) -> (Result<Special, DecodeError>, Seq<u8>) {
    lifted(s, Major::Special, spec_special(s))
}

/// Reading a byte string: its content.
pub open spec fn spec_byte_string(s: Seq<u8>) -> (Result<Seq<u8>, DecodeError>, Seq<u8>) {
    lifted(s, Major::Bytes, spec_bytes(s))
}

/// Reading a text string: its characters.
pub open spec fn spec_text_string(s: Seq<u8>) -> (Result<Seq<char>, DecodeError>, Seq<u8>) {
    lifted(s, Major::Text, spec_text(s))
}

/// Reading the head of a tagged item: the tag.
pub open spec fn spec_tag_head(s: Seq<u8>) -> (Result<u64, DecodeError>, Seq<u8>) {
    lifted(s, Major::Tag, spec_tag(s))
}

/// Reading a negative integer. An argument above `i64::MAX` stands for a
/// number below `i64::MIN`: it is reported as out of range, and nothing is
/// consumed.
pub open spec fn spec_negative_integer(s: Seq<u8>) -> (Result<i64, DecodeError>, Seq<u8>) {
    match spec_head(s, Major::NegativeInteger) {
        Ok((Len::Len(v), _)) => if v <= i64::MAX {
            lifted(s, Major::NegativeInteger, spec_negative(s))
        } else {
            (Err(DecodeError::StructuralMismatch(Mismatch::OutOfRange { found: v })), s)
        },
        _ => lifted(s, Major::NegativeInteger, spec_negative(s)),
    }
}

/// Reading the head of an array that must declare exactly `arity` elements.
pub open spec fn spec_tuple(s: Seq<u8>, arity: u64) -> (Result<(), DecodeError>, Seq<u8>) {
    match spec_array(s) {
        (Ok(len), rest) => if len == Len::Len(arity) {
            (Ok(()), rest)
        } else {
            (
                Err(
                    DecodeError::StructuralMismatch(
                        Mismatch::WrongArity { expected: Len::Len(arity), found: len },
                    ),
                ),
                rest,
            )
        },
        (Err(e), rest) => (Err(e), rest),
    }
}

/// Reading an unsigned integer that must fit in 32 bits.
pub open spec fn spec_unsigned_32(s: Seq<u8>) -> (Result<u32, DecodeError>, Seq<u8>) {
    match spec_unsigned_integer(s) {
        (Ok(v), rest) => if v <= u32::MAX {
            (Ok(v as u32), rest)
        } else {
            (Err(DecodeError::StructuralMismatch(Mismatch::OutOfRange { found: v })), rest)
        },
        (Err(e), rest) => (Err(e), rest),
    }
}

fn lift_error(e: ReadError, expected: Major, found: Result<Major, ReadError>, Ghost(s): Ghost<
    Seq<u8>,
>) -> (r: DecodeError)
    requires
        found == (if s.len() == 0 {
            Err::<Major, ReadError>(ReadError::NotEnough)
        } else {
            Ok(major_of(s[0]))
        }),
        e == ReadError::WrongType ==> s.len() > 0,
    ensures
        r == lift(e, expected, s),
{
    match e {
        ReadError::NotEnough => DecodeError::Truncated,
        ReadError::WrongType => match found {
            Ok(found) => DecodeError::StructuralMismatch(Mismatch::WrongType { expected, found }),
            Err(_) => DecodeError::Truncated,
        },
        ReadError::UnknownLenType(b) => DecodeError::StructuralMismatch(
            Mismatch::UnknownLenType(b),
        ),
        ReadError::IndefiniteLength => DecodeError::StructuralMismatch(Mismatch::IndefiniteLength),
        ReadError::InvalidText => DecodeError::StructuralMismatch(Mismatch::InvalidText),
    }
}

/// The major type of the next item; nothing is consumed.
pub open spec fn spec_cbor_type(s: Seq<u8>) -> Result<Major, DecodeError> {
    if s.len() == 0 {
        Err(DecodeError::Truncated)
    } else {
        Ok(major_of(s[0]))
    }
}

/// Looks at the major type of the next item without consuming it.
pub fn cbor_type(raw: &RawCbor) -> (r: Result<Major, DecodeError>)
    ensures
        r == spec_cbor_type(unread(*raw)),
{
    match peek_type(raw) {
        Ok(major) => Ok(major),
        Err(_) => Err(DecodeError::Truncated),
    }
}

/// The items collected so far, followed by the items that the rest of a
/// decode gives; its failure where it fails.
pub open spec fn continued<T>(collected: Seq<T>, rest: Result<Seq<T>, DecodeError>) -> Result<
    Seq<T>,
    DecodeError,
> {
    match rest {
        Ok(more) => Ok(collected + more),
        Err(e) => Err(e),
    }
}

/// The items collected so far, followed by what the rest of a read gives.
pub open spec fn collected_then<T>(
    collected: Seq<T>,
    read: (Result<Seq<T>, DecodeError>, Seq<u8>),
) -> (Result<Seq<T>, DecodeError>, Seq<u8>) {
    (continued(collected, read.0), read.1)
}

/// A read that has to use up its input: what it gives where nothing is
/// left, `TrailingData` where bytes are left after a read that succeeded.
pub open spec fn spec_complete<T>(read: (Result<T, DecodeError>, Seq<u8>)) -> Result<
    T,
    DecodeError,
> {
    match read.0 {
        Ok(v) => if read.1.len() == 0 {
            Ok(v)
        } else {
            Err(DecodeError::TrailingData)
        },
        Err(e) => Err(e),
    }
}

/// Whether the cursor has consumed all of its bytes.
pub fn at_end(raw: &RawCbor) -> (r: bool)
    ensures
        r == (unread(*raw).len() == 0),
{
    unread_len(raw) == 0
}

/// Reads the head of an array and returns its declared length.
pub fn array(raw: &mut RawCbor) -> (r: Result<Len, DecodeError>)
    ensures
        (r, unread(*final(raw))) == spec_array(unread(*old(raw))),
{
    let ghost s = unread(*raw);
    let found = peek_type(raw);
    match read_array(raw) {
        Ok(len) => Ok(len),
        Err(e) => Err(lift_error(e, Major::Array, found, Ghost(s))),
    }
}

/// Reads the head of a map and returns its declared number of entries.
pub fn map(raw: &mut RawCbor) -> (r: Result<Len, DecodeError>)
    ensures
        (r, unread(*final(raw))) == spec_map(unread(*old(raw))),
{
    let ghost s = unread(*raw);
    let found = peek_type(raw);
    match read_map(raw) {
        Ok(len) => Ok(len),
        Err(e) => Err(lift_error(e, Major::Object, found, Ghost(s))),
    }
}

/// Reads an unsigned integer.
pub fn unsigned_integer(raw: &mut RawCbor) -> (r: Result<u64, DecodeError>)
    ensures
        (r, unread(*final(raw))) == spec_unsigned_integer(unread(*old(raw))),
{
    let ghost s = unread(*raw);
    let found = peek_type(raw);
    match read_unsigned(raw) {
        Ok(v) => Ok(v),
        Err(e) => Err(lift_error(e, Major::UnsignedInteger, found, Ghost(s))),
    }
}

/// Reads a special item.
pub fn special(raw: &mut RawCbor) -> (r: Result<Special, DecodeError>)
    ensures
        (r, unread(*final(raw))) == spec_special_item(unread(*old(raw))),
{
    let ghost s = unread(*raw);
    let found = peek_type(raw);
    match read_special(raw) {
        Ok(v) => Ok(v),
        Err(e) => Err(lift_error(e, Major::Special, found, Ghost(s))),
    }
}

/// Reads the head of an array that must declare exactly `arity` elements.
pub fn tuple(raw: &mut RawCbor, arity: u64) -> (r: Result<(), DecodeError>)
    ensures
        (r, unread(*final(raw))) == spec_tuple(unread(*old(raw)), arity),
{
    match array(raw) {
        Ok(len) => {
            if len == Len::Len(arity) {
                Ok(())
            } else {
                Err(
                    DecodeError::StructuralMismatch(
                        Mismatch::WrongArity { expected: Len::Len(arity), found: len },
                    ),
                )
            }
        },
        Err(e) => Err(e),
    }
}

/// Reads an unsigned integer that must fit in 32 bits.
pub fn unsigned_32(raw: &mut RawCbor) -> (r: Result<u32, DecodeError>)
    ensures
        (r, unread(*final(raw))) == spec_unsigned_32(unread(*old(raw))),
{
    match unsigned_integer(raw) {
        Ok(v) => {
            if v <= 0xffff_ffff {
                Ok(v as u32)
            } else {
                Err(DecodeError::StructuralMismatch(Mismatch::OutOfRange { found: v }))
            }
        },
        Err(e) => Err(e),
    }
}

/// Reads a byte string and returns a copy of its content. A string whose
/// declared content is not all there is reported as truncated, and nothing
/// is consumed.
pub fn bytes(raw: &mut RawCbor) -> (r: Result<Vec<u8>, DecodeError>)
    ensures
        match spec_byte_string(unread(*old(raw))).0 {
            Ok(content) => r matches Ok(v) && v@ == content,
            Err(e) => r == Err::<Vec<u8>, DecodeError>(e),
        },
        unread(*final(raw)) == spec_byte_string(unread(*old(raw))).1,
{
    let ghost s = unread(*raw);
    let found = peek_type(raw);
    match found {
        Ok(Major::Bytes) => {
            match peek_len(raw) {
                Ok((Len::Len(n), width)) => {
                    let available = unread_len(raw);
                    if n > (available - 1 - width) as u64 {
                        return Err(DecodeError::Truncated);
                    }
                },
                _ => {},
            }
        },
        _ => {},
    }
    match read_bytes(raw) {
        Ok(v) => Ok(v),
        Err(e) => Err(lift_error(e, Major::Bytes, found, Ghost(s))),
    }
}

/// Reads a text string. A string whose declared content is not all there
/// is reported as truncated, and nothing is consumed; so where the content
/// is not valid UTF-8.
pub fn text(raw: &mut RawCbor) -> (r: Result<String, DecodeError>)
    ensures
        match spec_text_string(unread(*old(raw))).0 {
            Ok(content) => r matches Ok(v) && v@ == content,
            Err(e) => r == Err::<String, DecodeError>(e),
        },
        unread(*final(raw)) == spec_text_string(unread(*old(raw))).1,
{
    let ghost s = unread(*raw);
    let found = peek_type(raw);
    match found {
        Ok(Major::Text) => {
            match peek_len(raw) {
                Ok((Len::Len(n), width)) => {
                    let available = unread_len(raw);
                    if n > (available - 1 - width) as u64 {
                        return Err(DecodeError::Truncated);
                    }
                },
                _ => {},
            }
        },
        _ => {},
    }
    match read_text(raw) {
        Ok(v) => Ok(v),
        Err(e) => Err(lift_error(e, Major::Text, found, Ghost(s))),
    }
}

/// Reads the head of a tagged item and returns the tag.
pub fn tag(raw: &mut RawCbor) -> (r: Result<u64, DecodeError>)
    ensures
        (r, unread(*final(raw))) == spec_tag_head(unread(*old(raw))),
{
    let ghost s = unread(*raw);
    let found = peek_type(raw);
    match read_tag(raw) {
        Ok(v) => Ok(v),
        Err(e) => Err(lift_error(e, Major::Tag, found, Ghost(s))),
    }
}

/// Reads a negative integer.
pub fn negative_integer(raw: &mut RawCbor) -> (r: Result<i64, DecodeError>)
    ensures
        (r, unread(*final(raw))) == spec_negative_integer(unread(*old(raw))),
{
    let ghost s = unread(*raw);
    let found = peek_type(raw);
    match found {
        Ok(Major::NegativeInteger) => {
            match peek_len(raw) {
                Ok((Len::Len(v), _)) => {
                    if v > 0x7fff_ffff_ffff_ffff {
                        return Err(
                            DecodeError::StructuralMismatch(Mismatch::OutOfRange { found: v }),
                        );
                    }
                },
                _ => {},
            }
        },
        _ => {},
    }
    match read_negative(raw) {
        Ok(v) => Ok(v),
        Err(e) => Err(lift_error(e, Major::NegativeInteger, found, Ghost(s))),
    }
}

/// A byte string that is read takes at least its head: the bytes left are
/// fewer than before.
pub proof fn lemma_byte_string_consumes(s: Seq<u8>)
    ensures
        spec_byte_string(s).0 is Ok ==> spec_byte_string(s).1.len() < s.len(),
        spec_byte_string(s).0 is Err ==> spec_byte_string(s).1 == s,
{
}

} // verus!
