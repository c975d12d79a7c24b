//! The streaming reader: a cursor over CBOR bytes, read one item head at a
//! time. The cursor itself is `cbor_event`'s; this module states, over the
//! bytes that are left, what each of its reads returns and consumes.

use cbor_event::de::RawCbor;
use vstd::prelude::*;

verus! {

/// The major type of an item: the top three bits of its first byte.
#[derive(Debug, Clone, Copy, PartialEq, Eq, Structural)]
pub enum Major {
    UnsignedInteger,
    NegativeInteger,
    Bytes,
    Text,
    Array,
    Object,
    Tag,
    Special,
}

/// The length an item declares: a count, or "until the break".
#[derive(Debug, Clone, Copy, PartialEq, Eq, Structural)]
pub enum Len {
    Indefinite,
    Len(u64),
}

/// An item of the special major type. A float is told apart but its value
/// is not kept.
#[derive(Debug, Clone, Copy, PartialEq, Eq, Structural)]
pub enum Special {
    Bool(bool),
    Null,
    Undefined,
    Unassigned(u8),
    Float,
    Break,
}

/// Why a read of the cursor failed.
#[derive(Debug, Clone, Copy, PartialEq, Eq, Structural)]
pub enum ReadError {
    /// The bytes ended before the item head was complete.
    NotEnough,
    /// The item is of another major type than the read asks for.
    WrongType,
    /// The head carries one of the reserved length codes 28, 29 or 30.
    UnknownLenType(u8),
    /// The head says "indefinite" where the item needs a value.
    IndefiniteLength,
    /// The content of a text string is not valid UTF-8.
    InvalidText,
}

/// The major type that a first byte announces.
pub open spec fn major_of(head: u8) -> Major {
    let m = head / 32;
    if m == 0 {
        Major::UnsignedInteger
    } else if m == 1 {
        Major::NegativeInteger
    } else if m == 2 {
        Major::Bytes
    } else if m == 3 {
        Major::Text
    } else if m == 4 {
        Major::Array
    } else if m == 5 {
        Major::Object
    } else if m == 6 {
        Major::Tag
    } else {
        Major::Special
    }
}

/// The low five bits of a first byte: a small argument, or the code that
/// says how the argument follows.
pub open spec fn info_of(head: u8) -> u8 {
    head % 32
}

/// The number that a byte string spells, most significant byte first.
pub open spec fn big_endian(bytes: Seq<u8>) -> nat
    decreases bytes.len(),
{
    if bytes.len() == 0 {
        0
    } else {
        big_endian(bytes.drop_last()) * 256 + bytes.last() as nat
    }
}

/// 256 to the power of `n`.
pub open spec fn pow256(n: nat) -> nat
    decreases n,
{
    if n == 0 {
        1
    } else {
        256 * pow256((n - 1) as nat)
    }
}

/// A byte string of `n` bytes spells a number below 256 to the power of
/// `n`; so an argument of up to eight bytes fits in 64 bits.
pub proof fn lemma_big_endian_bound(bytes: Seq<u8>)
    ensures
        big_endian(bytes) < pow256(bytes.len()),
        bytes.len() <= 8 ==> big_endian(bytes) <= u64::MAX,
    decreases bytes.len(),
{
    if bytes.len() > 0 {
        lemma_big_endian_bound(bytes.drop_last());
    }
    if bytes.len() <= 8 {
        reveal_with_fuel(pow256, 9);
    }
}

/// How many bytes after the first carry the argument, for the codes 24 to 27.
pub open spec fn argument_width(info: u8) -> nat {
    if info == 24 {
        1
    } else if info == 25 {
        2
    } else if info == 26 {
        4
    } else if info == 27 {
        8
    } else {
        0
    }
}

/// The argument of the item at the front of `s`, and the number of bytes
/// after the first that spell it.
pub open spec fn spec_len(s: Seq<u8>) -> Result<(Len, nat), ReadError> {
    if s.len() == 0 {
        Err(ReadError::NotEnough)
    } else {
        let info = info_of(s[0]);
        let width = argument_width(info);
        if info < 24 {
            Ok((Len::Len(info as u64), 0))
        } else if info < 28 {
            if s.len() < 1 + width {
                Err(ReadError::NotEnough)
            } else {
                Ok((Len::Len(big_endian(s.subrange(1, 1 + width as int)) as u64), width))
            }
        } else if info < 31 {
            Err(ReadError::UnknownLenType(info))
        } else {
            Ok((Len::Indefinite, 0))
        }
    }
}

/// The head of an item of the major type `expected` at the front of `s`:
/// its argument and the number of bytes the head takes.
pub open spec fn spec_head(s: Seq<u8>, expected: Major) -> Result<(Len, nat), ReadError> {
    if s.len() == 0 {
        Err(ReadError::NotEnough)
    } else if major_of(s[0]) != expected {
        Err(ReadError::WrongType)
    } else {
        match spec_len(s) {
            Ok((len, width)) => Ok((len, 1 + width)),
            Err(e) => Err(e),
        }
    }
}

/// The unsigned integer at the front of `s` and the bytes it takes.
pub open spec fn spec_unsigned(s: Seq<u8>) -> Result<(u64, nat), ReadError> {
    match spec_head(s, Major::UnsignedInteger) {
        Ok((Len::Len(v), n)) => Ok((v, n)),
        Ok((Len::Indefinite, _)) => Err(ReadError::IndefiniteLength),
        Err(e) => Err(e),
    }
}

/// The byte string at the front of `s` and the bytes it takes, head
/// included.
pub open spec fn spec_bytes(s: Seq<u8>) -> Result<(Seq<u8>, nat), ReadError> {
    match spec_head(s, Major::Bytes) {
        Ok((Len::Len(n), head)) => if head + n <= s.len() {
            Ok((s.subrange(head as int, head + n as int), head + n as nat))
        } else {
            Err(ReadError::NotEnough)
        },
        Ok((Len::Indefinite, _)) => Err(ReadError::IndefiniteLength),
        Err(e) => Err(e),
    }
}

/// The negative integer at the front of `s` and the bytes it takes: an
/// argument `v` stands for `-1 - v`.
pub open spec fn spec_negative(s: Seq<u8>) -> Result<(i64, nat), ReadError> {
    match spec_head(s, Major::NegativeInteger) {
        Ok((Len::Len(v), n)) => Ok(((-1 - v) as i64, n)),
        Ok((Len::Indefinite, _)) => Err(ReadError::IndefiniteLength),
        Err(e) => Err(e),
    }
}

/// The tag at the front of `s` and the bytes its head takes.
pub open spec fn spec_tag(s: Seq<u8>) -> Result<(u64, nat), ReadError> {
    match spec_head(s, Major::Tag) {
        Ok((Len::Len(v), n)) => Ok((v, n)),
        Ok((Len::Indefinite, _)) => Err(ReadError::IndefiniteLength),
        Err(e) => Err(e),
    }
}

/// The text string at the front of `s` and the bytes it takes, head
/// included. The content has to be valid UTF-8.
pub open spec fn spec_text(s: Seq<u8>) -> Result<(Seq<char>, nat), ReadError> {
    match spec_head(s, Major::Text) {
        Ok((Len::Len(n), head)) => if head + n <= s.len() {
            let content = s.subrange(head as int, head + n as int);
            if vstd::utf8::valid_utf8(content) {
                Ok((vstd::utf8::decode_utf8(content), head + n as nat))
            } else {
                Err(ReadError::InvalidText)
            }
        } else {
            Err(ReadError::NotEnough)
        },
        Ok((Len::Indefinite, _)) => Err(ReadError::IndefiniteLength),
        Err(e) => Err(e),
    }
}

/// The special item at the front of `s` and the bytes it takes.
pub open spec fn spec_special(s: Seq<u8>) -> Result<(Special, nat), ReadError> {
    if s.len() == 0 {
        Err(ReadError::NotEnough)
    } else if major_of(s[0]) != Major::Special {
        Err(ReadError::WrongType)
    } else {
        let info = info_of(s[0]);
        let width = argument_width(info);
        if info < 20 {
            Ok((Special::Unassigned(info), 1))
        } else if info == 20 {
            Ok((Special::Bool(false), 1))
        } else if info == 21 {
            Ok((Special::Bool(true), 1))
        } else if info == 22 {
            Ok((Special::Null, 1))
        } else if info == 23 {
            Ok((Special::Undefined, 1))
        } else if info < 28 {
            if s.len() < 1 + width {
                Err(ReadError::NotEnough)
            } else if info == 24 {
                Ok((Special::Unassigned(s[1]), 2))
            } else {
                Ok((Special::Float, 1 + width))
            }
        } else if info < 31 {
            Ok((Special::Unassigned(info), 1))
        } else {
            Ok((Special::Break, 1))
        }
    }
}

/// What a read returns: the value without the count of bytes.
pub open spec fn outcome<T>(read: Result<(T, nat), ReadError>) -> Result<T, ReadError> {
    match read {
        Ok((v, _)) => Ok(v),
        Err(e) => Err(e),
    }
}

/// What a read leaves: `s` without the bytes consumed, all of `s` where the
/// read failed.
pub open spec fn rest_after<T>(s: Seq<u8>, read: Result<(T, nat), ReadError>) -> Seq<u8> {
    match read {
        Ok((_, n)) => s.skip(n as int),
        Err(_) => s,
    }
}

/// `cbor_event::de::RawCbor`, a cursor over a borrowed byte slice. Nothing of
/// its inside is visible here; what it holds is named by [`unread`].
#[verifier::external_type_specification]
#[verifier::external_body]
pub struct ExRawCbor<'a>(RawCbor<'a>);

/// The bytes that a cursor has not consumed yet, in order.
pub uninterp spec fn unread(raw: RawCbor) -> Seq<u8>;

/// Calls `RawCbor::from` on a byte slice: the new cursor has consumed
/// nothing, so all of the slice is unread.
#[verifier::external_body]
pub(crate) fn cursor_over<'a>(bytes: &'a [u8]) -> (raw: RawCbor<'a>)
    ensures
        unread(raw) == bytes@,
{
    RawCbor::from(bytes)
}

/// Calls the slice `len` that `RawCbor` hands on through `Deref`: the number
/// of unread bytes.
#[verifier::external_body]
pub(crate) fn unread_len(raw: &RawCbor) -> (n: usize)
    ensures
        n == unread(*raw).len(),
{
    raw.len()
}

/// Calls `RawCbor::cbor_type`, which looks at the first unread byte without
/// consuming it: the major type that byte announces, `NotEnough` where no
/// byte is left.
#[verifier::external_body]
pub(crate) fn peek_type(raw: &RawCbor) -> (r: Result<Major, ReadError>)
    ensures
        r == (if unread(*raw).len() == 0 {
            Err(ReadError::NotEnough)
        } else {
            Ok(major_of(unread(*raw)[0]))
        }),
{
    match raw.cbor_type() {
        Ok(cbor_event::Type::UnsignedInteger) => Ok(Major::UnsignedInteger),
        Ok(cbor_event::Type::NegativeInteger) => Ok(Major::NegativeInteger),
        Ok(cbor_event::Type::Bytes) => Ok(Major::Bytes),
        Ok(cbor_event::Type::Text) => Ok(Major::Text),
        Ok(cbor_event::Type::Array) => Ok(Major::Array),
        Ok(cbor_event::Type::Map) => Ok(Major::Object),
        Ok(cbor_event::Type::Tag) => Ok(Major::Tag),
        Ok(cbor_event::Type::Special) => Ok(Major::Special),
        Err(_) => Err(ReadError::NotEnough),
    }
}

/// Calls `RawCbor::cbor_len`, which reads the argument of the first item
/// without consuming it: the argument and the number of bytes after the
/// first that spell it, as [`spec_len`] says.
#[verifier::external_body]
pub(crate) fn peek_len(raw: &RawCbor) -> (r: Result<(Len, usize), ReadError>)
    ensures
        match spec_len(unread(*raw)) {
            Ok((len, width)) => r == Ok::<(Len, usize), ReadError>((len, width as usize)),
            Err(e) => r == Err::<(Len, usize), ReadError>(e),
        },
{
    match raw.cbor_len() {
        Ok((cbor_event::Len::Len(n), width)) => Ok((Len::Len(n), width)),
        Ok((cbor_event::Len::Indefinite, width)) => Ok((Len::Indefinite, width)),
        Err(cbor_event::Error::UnknownLenType(b)) => Err(ReadError::UnknownLenType(b)),
        Err(_) => Err(ReadError::NotEnough),
    }
}

/// Calls `RawCbor::array`: the head of an array is consumed and its declared
/// length returned; on failure nothing is consumed.
#[verifier::external_body]
pub(crate) fn read_array(raw: &mut RawCbor) -> (r: Result<Len, ReadError>)
    ensures
        r == outcome(spec_head(unread(*old(raw)), Major::Array)),
        unread(*final(raw)) == rest_after(
            unread(*old(raw)),
            spec_head(unread(*old(raw)), Major::Array),
        ),
{
    match raw.array() {
        Ok(cbor_event::Len::Len(n)) => Ok(Len::Len(n)),
        Ok(cbor_event::Len::Indefinite) => Ok(Len::Indefinite),
        Err(cbor_event::Error::NotEnough(_, _)) => Err(ReadError::NotEnough),
        Err(cbor_event::Error::UnknownLenType(b)) => Err(ReadError::UnknownLenType(b)),
        Err(_) => Err(ReadError::WrongType),
    }
}

/// Calls `RawCbor::map`: the head of a map is consumed and its declared
/// number of entries returned; on failure nothing is consumed.
#[verifier::external_body]
pub(crate) fn read_map(raw: &mut RawCbor) -> (r: Result<Len, ReadError>)
    ensures
        r == outcome(spec_head(unread(*old(raw)), Major::Object)),
        unread(*final(raw)) == rest_after(
            unread(*old(raw)),
            spec_head(unread(*old(raw)), Major::Object),
        ),
{
    match raw.map() {
        Ok(cbor_event::Len::Len(n)) => Ok(Len::Len(n)),
        Ok(cbor_event::Len::Indefinite) => Ok(Len::Indefinite),
        Err(cbor_event::Error::NotEnough(_, _)) => Err(ReadError::NotEnough),
        Err(cbor_event::Error::UnknownLenType(b)) => Err(ReadError::UnknownLenType(b)),
        Err(_) => Err(ReadError::WrongType),
    }
}

/// Calls `RawCbor::unsigned_integer`: an unsigned integer is consumed and
/// returned; on failure nothing is consumed.
#[verifier::external_body]
pub(crate) fn read_unsigned(raw: &mut RawCbor) -> (r: Result<u64, ReadError>)
    ensures
        r == outcome(spec_unsigned(unread(*old(raw)))),
        unread(*final(raw)) == rest_after(unread(*old(raw)), spec_unsigned(unread(*old(raw)))),
{
    match raw.unsigned_integer() {
        Ok(v) => Ok(v),
        Err(cbor_event::Error::NotEnough(_, _)) => Err(ReadError::NotEnough),
        Err(cbor_event::Error::UnknownLenType(b)) => Err(ReadError::UnknownLenType(b)),
        Err(cbor_event::Error::IndefiniteLenNotSupported(_)) => Err(ReadError::IndefiniteLength),
        Err(_) => Err(ReadError::WrongType),
    }
}

/// Calls `RawCbor::special`: an item of the special major type is consumed
/// and returned; on failure nothing is consumed.
#[verifier::external_body]
pub(crate) fn read_special(raw: &mut RawCbor) -> (r: Result<Special, ReadError>)
    ensures
        r == outcome(spec_special(unread(*old(raw)))),
        unread(*final(raw)) == rest_after(unread(*old(raw)), spec_special(unread(*old(raw)))),
{
    match raw.special() {
        Ok(cbor_event::Special::Bool(b)) => Ok(Special::Bool(b)),
        Ok(cbor_event::Special::Null) => Ok(Special::Null),
        Ok(cbor_event::Special::Undefined) => Ok(Special::Undefined),
        Ok(cbor_event::Special::Unassigned(v)) => Ok(Special::Unassigned(v)),
        Ok(cbor_event::Special::Float(_)) => Ok(Special::Float),
        Ok(cbor_event::Special::Break) => Ok(Special::Break),
        Err(cbor_event::Error::NotEnough(_, _)) => Err(ReadError::NotEnough),
        Err(_) => Err(ReadError::WrongType),
    }
}

/// Calls `RawCbor::bytes`: a byte string is consumed and a copy of its
/// content returned; on failure nothing is consumed. `RawCbor::bytes`
/// slices before it checks, so the caller has to know that the declared
/// content is there.
#[verifier::external_body]
pub(crate) fn read_bytes(raw: &mut RawCbor) -> (r: Result<Vec<u8>, ReadError>)
    requires
        spec_head(unread(*old(raw)), Major::Bytes) matches Ok((Len::Len(n), head)) ==> head + n
            <= unread(*old(raw)).len(),
    ensures
        match spec_bytes(unread(*old(raw))) {
            Ok((content, _)) => r matches Ok(v) && v@ == content,
            Err(e) => r == Err::<Vec<u8>, ReadError>(e),
        },
        unread(*final(raw)) == rest_after(unread(*old(raw)), spec_bytes(unread(*old(raw)))),
{
    match raw.bytes() {
        Ok(content) => Ok(content.to_vec()),
        Err(cbor_event::Error::NotEnough(_, _)) => Err(ReadError::NotEnough),
        Err(cbor_event::Error::UnknownLenType(b)) => Err(ReadError::UnknownLenType(b)),
        Err(cbor_event::Error::IndefiniteLenNotSupported(_)) => Err(ReadError::IndefiniteLength),
        Err(_) => Err(ReadError::WrongType),
    }
}

/// Calls `RawCbor::negative_integer`: a negative integer is consumed and
/// returned; on failure nothing is consumed. `RawCbor::negative_integer`
/// negates the argument as an `i64`, so the caller has to know that the
/// argument is no larger than `i64::MAX`.
#[verifier::external_body]
pub(crate) fn read_negative(raw: &mut RawCbor) -> (r: Result<i64, ReadError>)
    requires
        spec_head(unread(*old(raw)), Major::NegativeInteger) matches Ok((Len::Len(v), _)) ==> v
            <= i64::MAX,
    ensures
        r == outcome(spec_negative(unread(*old(raw)))),
        unread(*final(raw)) == rest_after(unread(*old(raw)), spec_negative(unread(*old(raw)))),
{
    match raw.negative_integer() {
        Ok(v) => Ok(v),
        Err(cbor_event::Error::NotEnough(_, _)) => Err(ReadError::NotEnough),
        Err(cbor_event::Error::UnknownLenType(b)) => Err(ReadError::UnknownLenType(b)),
        Err(cbor_event::Error::IndefiniteLenNotSupported(_)) => Err(ReadError::IndefiniteLength),
        Err(_) => Err(ReadError::WrongType),
    }
}

/// Calls `RawCbor::tag`: the head of a tagged item is consumed and the tag
/// returned; on failure nothing is consumed.
#[verifier::external_body]
pub(crate) fn read_tag(raw: &mut RawCbor) -> (r: Result<u64, ReadError>)
    ensures
        r == outcome(spec_tag(unread(*old(raw)))),
        unread(*final(raw)) == rest_after(unread(*old(raw)), spec_tag(unread(*old(raw)))),
{
    match raw.tag() {
        Ok(v) => Ok(v),
        Err(cbor_event::Error::NotEnough(_, _)) => Err(ReadError::NotEnough),
        Err(cbor_event::Error::UnknownLenType(b)) => Err(ReadError::UnknownLenType(b)),
        Err(cbor_event::Error::IndefiniteLenNotSupported(_)) => Err(ReadError::IndefiniteLength),
        Err(_) => Err(ReadError::WrongType),
    }
}

/// Calls `RawCbor::text`: a text string is consumed and returned; on
/// failure, also where the content is not valid UTF-8, nothing is consumed.
/// `RawCbor::text` slices before it checks, so the caller has to know that
/// the declared content is there.
#[verifier::external_body]
pub(crate) fn read_text(raw: &mut RawCbor) -> (r: Result<String, ReadError>)
    requires
        spec_head(unread(*old(raw)), Major::Text) matches Ok((Len::Len(n), head)) ==> head + n
            <= unread(*old(raw)).len(),
    ensures
        match spec_text(unread(*old(raw))) {
            Ok((content, _)) => r matches Ok(v) && v@ == content,
            Err(e) => r == Err::<String, ReadError>(e),
        },
        unread(*final(raw)) == rest_after(unread(*old(raw)), spec_text(unread(*old(raw)))),
{
    match raw.text() {
        Ok(content) => Ok(content),
        Err(cbor_event::Error::NotEnough(_, _)) => Err(ReadError::NotEnough),
        Err(cbor_event::Error::UnknownLenType(b)) => Err(ReadError::UnknownLenType(b)),
        Err(cbor_event::Error::IndefiniteLenNotSupported(_)) => Err(ReadError::IndefiniteLength),
        Err(cbor_event::Error::InvalidTextError(_)) => Err(ReadError::InvalidText),
        Err(_) => Err(ReadError::WrongType),
    }
}

} // verus!
