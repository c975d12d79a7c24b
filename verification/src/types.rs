//! The scalar domain values of the block schema and how each is written:
//! digests, the network magic, the chain difficulty, header attributes.

use crate::error::{DecodeError, Mismatch};
use crate::parse::spec_value;
use crate::stream::{
    bytes, cbor_type, spec_byte_string, spec_cbor_type, spec_tuple, spec_unsigned_32,
    spec_unsigned_integer, tuple, unsigned_32, unsigned_integer,
};
use crate::value::{
    copy_bytes, models, spec_byte_content, spec_elements, spec_u32, spec_u64, take_first,
    wrong_kind, Term, Value,
};
use crate::wire::{unread, Major};
use cbor_event::de::RawCbor;
use vstd::prelude::*;

verus! {

/// The size in bytes of a 256-bit digest.
pub const DIGEST_256_SIZE: usize = 32;

/// The size in bytes of a 224-bit digest.
pub const DIGEST_224_SIZE: usize = 28;

/// The number of an epoch.
pub type EpochId = u32;

/// The failure of a byte string of `found` bytes where a digest of `size`
/// bytes is expected.
pub open spec fn wrong_size(size: nat, found: nat) -> DecodeError {
    DecodeError::StructuralMismatch(
        Mismatch::WrongSize { expected: size as u64, found: found as u64 },
    )
}

/// The digest of `size` bytes that a value holds.
pub open spec fn spec_digest_decode(t: Term, size: nat) -> Result<Seq<u8>, DecodeError> {
    match spec_byte_content(t) {
        Ok(content) => if content.len() == size {
            Ok(content)
        } else {
            Err(wrong_size(size, content.len()))
        },
        Err(e) => Err(e),
    }
}

/// The digest of `size` bytes at the front of `s`, and the bytes left.
pub open spec fn spec_digest_deserialize(s: Seq<u8>, size: nat) -> (
    Result<Seq<u8>, DecodeError>,
    Seq<u8>,
) {
    match spec_byte_string(s) {
        (Ok(content), rest) => if content.len() == size {
            (Ok(content), rest)
        } else {
            (Err(wrong_size(size, content.len())), rest)
        },
        (Err(e), rest) => (Err(e), rest),
    }
}

fn digest_from_value(value: Value, size: usize) -> (r: Result<Vec<u8>, DecodeError>)
    ensures
        match spec_digest_decode(value@, size as nat) {
            Ok(content) => r matches Ok(v) && v@ == content,
            Err(e) => r == Err::<Vec<u8>, DecodeError>(e),
        },
{
    match value.bytes() {
        Ok(content) => {
            if content.len() == size {
                Ok(content)
            } else {
                Err(
                    DecodeError::StructuralMismatch(
                        Mismatch::WrongSize { expected: size as u64, found: content.len() as u64 },
                    ),
                )
            }
        },
        Err(e) => Err(e),
    }
}

fn digest_from_stream(raw: &mut RawCbor, size: usize) -> (r: Result<Vec<u8>, DecodeError>)
    ensures
        match spec_digest_deserialize(unread(*old(raw)), size as nat).0 {
            Ok(content) => r matches Ok(v) && v@ == content,
            Err(e) => r == Err::<Vec<u8>, DecodeError>(e),
        },
        unread(*final(raw)) == spec_digest_deserialize(unread(*old(raw)), size as nat).1,
{
    match bytes(raw) {
        Ok(content) => {
            if content.len() == size {
                Ok(content)
            } else {
                Err(
                    DecodeError::StructuralMismatch(
                        Mismatch::WrongSize { expected: size as u64, found: content.len() as u64 },
                    ),
                )
            }
        },
        Err(e) => Err(e),
    }
}

fn copy_slice(bytes: &[u8]) -> (r: Vec<u8>)
    ensures
        r@ == bytes@,
{
    let mut out: Vec<u8> = Vec::new();
    let mut i: usize = 0;
    while i < bytes.len()
        invariant
            i <= bytes.len(),
            out@ == bytes@.take(i as int),
        decreases bytes.len() - i,
    {
        out.push(bytes[i]);
        i += 1;
    }
    out
}

/// A 256-bit digest. Its view is its 32 bytes.
#[derive(Debug, PartialEq, Eq)]
pub struct Blake2b256 {
    bytes: Vec<u8>,
}

/// The hash of a block header.
pub type HeaderHash = Blake2b256;

impl View for Blake2b256 {
    type V = Seq<u8>;

    closed spec fn view(&self) -> Seq<u8> {
        self.bytes@
    }
}

impl Clone for Blake2b256 {
    fn clone(&self) -> (r: Blake2b256)
        ensures
            r@ == self@,
    {
        Blake2b256 { bytes: copy_bytes(&self.bytes) }
    }
}

impl Blake2b256 {
    /// A digest holds exactly 32 bytes.
    pub open spec fn wf(&self) -> bool {
        self@.len() == DIGEST_256_SIZE
    }

    /// The digest with the given bytes, where there are exactly 32.
    pub fn from_slice(bytes: &[u8]) -> (r: Option<Blake2b256>)
        ensures
            bytes@.len() == DIGEST_256_SIZE ==> (r matches Some(d) && d@ == bytes@ && d.wf()),
            bytes@.len() != DIGEST_256_SIZE ==> r is None,
    {
        if bytes.len() == DIGEST_256_SIZE {
            Some(Blake2b256 { bytes: copy_slice(bytes) })
        } else {
            None
        }
    }

    /// The bytes of the digest.
    pub fn to_vec(&self) -> (r: Vec<u8>)
        ensures
            r@ == self@,
    {
        copy_bytes(&self.bytes)
    }

    /// The value tree that a 256-bit digest encodes to.
    pub open spec fn spec_encode(digest: Seq<u8>) -> Term {
        Term::Bytes(digest)
    }

    /// What decoding a value tree as a 256-bit digest gives.
    pub open spec fn spec_decode(t: Term) -> Result<Seq<u8>, DecodeError> {
        spec_digest_decode(t, DIGEST_256_SIZE as nat)
    }

    /// What reading a 256-bit digest from the front of `s` gives, and the bytes left.
    pub open spec fn spec_deserialize(s: Seq<u8>) -> (Result<Seq<u8>, DecodeError>, Seq<u8>) {
        spec_digest_deserialize(s, DIGEST_256_SIZE as nat)
    }

    /// Encodes a 256-bit digest as a value tree.
    pub fn encode(&self) -> (r: Value)
        ensures
            r@ == Self::spec_encode(self@),
    {
        Value::Bytes(copy_bytes(&self.bytes))
    }

    /// Decodes a 256-bit digest from a value tree. The decode is all or nothing: a
    /// failure gives no part of it.
    pub fn decode(value: Value) -> (r: Result<Blake2b256, DecodeError>)
        ensures
            match Self::spec_decode(value@) {
                Ok(digest) => r matches Ok(d) && d@ == digest && d.wf(),
                Err(e) => r == Err::<Blake2b256, DecodeError>(e),
            },
    {
        match digest_from_value(value, DIGEST_256_SIZE) {
            Ok(bytes) => Ok(Blake2b256 { bytes }),
            Err(e) => Err(e),
        }
    }

    /// Reads a 256-bit digest from the cursor. On failure the cursor stays where the
    /// failing read left it.
    pub fn deserialize(raw: &mut RawCbor) -> (r: Result<Blake2b256, DecodeError>)
        ensures
            match Self::spec_deserialize(unread(*old(raw))).0 {
                Ok(digest) => r matches Ok(d) && d@ == digest && d.wf(),
                Err(e) => r == Err::<Blake2b256, DecodeError>(e),
            },
            unread(*final(raw)) == Self::spec_deserialize(unread(*old(raw))).1,
    {
        match digest_from_stream(raw, DIGEST_256_SIZE) {
            Ok(bytes) => Ok(Blake2b256 { bytes }),
            Err(e) => Err(e),
        }
    }
}

/// The identifier of a stakeholder: a 224-bit digest. Its view is its 28
/// bytes.
#[derive(Debug, PartialEq, Eq)]
pub struct StakeholderId {
    bytes: Vec<u8>,
}

impl View for StakeholderId {
    type V = Seq<u8>;

    closed spec fn view(&self) -> Seq<u8> {
        self.bytes@
    }
}

impl Clone for StakeholderId {
    fn clone(&self) -> (r: StakeholderId)
        ensures
            r@ == self@,
    {
        StakeholderId { bytes: copy_bytes(&self.bytes) }
    }
}

impl StakeholderId {
    /// An identifier holds exactly 28 bytes.
    pub open spec fn wf(&self) -> bool {
        self@.len() == DIGEST_224_SIZE
    }

    /// The identifier with the given bytes, where there are exactly 28.
    pub fn from_slice(bytes: &[u8]) -> (r: Option<StakeholderId>)
        ensures
            bytes@.len() == DIGEST_224_SIZE ==> (r matches Some(d) && d@ == bytes@ && d.wf()),
            bytes@.len() != DIGEST_224_SIZE ==> r is None,
    {
        if bytes.len() == DIGEST_224_SIZE {
            Some(StakeholderId { bytes: copy_slice(bytes) })
        } else {
            None
        }
    }

    /// The bytes of the identifier.
    pub fn to_vec(&self) -> (r: Vec<u8>)
        ensures
            r@ == self@,
    {
        copy_bytes(&self.bytes)
    }

    /// The value tree that a stakeholder identifier encodes to.
    pub open spec fn spec_encode(id: Seq<u8>) -> Term {
        Term::Bytes(id)
    }

    /// What decoding a value tree as a stakeholder identifier gives.
    pub open spec fn spec_decode(t: Term) -> Result<Seq<u8>, DecodeError> {
        spec_digest_decode(t, DIGEST_224_SIZE as nat)
    }

    /// What reading a stakeholder identifier from the front of `s` gives, and the bytes left.
    pub open spec fn spec_deserialize(s: Seq<u8>) -> (Result<Seq<u8>, DecodeError>, Seq<u8>) {
        spec_digest_deserialize(s, DIGEST_224_SIZE as nat)
    }

    /// Encodes a stakeholder identifier as a value tree.
    pub fn encode(&self) -> (r: Value)
        ensures
            r@ == Self::spec_encode(self@),
    {
        Value::Bytes(copy_bytes(&self.bytes))
    }

    /// Decodes a stakeholder identifier from a value tree. The decode is all or nothing: a
    /// failure gives no part of it.
    pub fn decode(value: Value) -> (r: Result<StakeholderId, DecodeError>)
        ensures
            match Self::spec_decode(value@) {
                Ok(id) => r matches Ok(d) && d@ == id && d.wf(),
                Err(e) => r == Err::<StakeholderId, DecodeError>(e),
            },
    {
        match digest_from_value(value, DIGEST_224_SIZE) {
            Ok(bytes) => Ok(StakeholderId { bytes }),
            Err(e) => Err(e),
        }
    }

    /// Reads a stakeholder identifier from the cursor. On failure the cursor stays where the
    /// failing read left it.
    pub fn deserialize(raw: &mut RawCbor) -> (r: Result<StakeholderId, DecodeError>)
        ensures
            match Self::spec_deserialize(unread(*old(raw))).0 {
                Ok(id) => r matches Ok(d) && d@ == id && d.wf(),
                Err(e) => r == Err::<StakeholderId, DecodeError>(e),
            },
            unread(*final(raw)) == Self::spec_deserialize(unread(*old(raw))).1,
    {
        match digest_from_stream(raw, DIGEST_224_SIZE) {
            Ok(bytes) => Ok(StakeholderId { bytes }),
            Err(e) => Err(e),
        }
    }
}

/// The magic number of a network.
#[derive(Debug, Clone, Copy, PartialEq, Eq, Structural)]
pub struct ProtocolMagic(pub u32);

impl ProtocolMagic {
    /// The magic with the given number.
    pub fn new(magic: u32) -> (r: ProtocolMagic)
        ensures
            r == ProtocolMagic(magic),
    {
        ProtocolMagic(magic)
    }

    /// The value tree that a network magic encodes to.
    pub open spec fn spec_encode(self) -> Term {
        Term::U64(self.0 as u64)
    }

    /// What decoding a value tree as a network magic gives.
    pub open spec fn spec_decode(t: Term) -> Result<ProtocolMagic, DecodeError> {
        match spec_u32(t) {
            Ok(v) => Ok(ProtocolMagic(v)),
            Err(e) => Err(e),
        }
    }

    /// What reading a network magic from the front of `s` gives, and the bytes left.
    pub open spec fn spec_deserialize(s: Seq<u8>) -> (Result<ProtocolMagic, DecodeError>, Seq<u8>) {
        match spec_unsigned_32(s) {
            (Ok(v), rest) => (Ok(ProtocolMagic(v)), rest),
            (Err(e), rest) => (Err(e), rest),
        }
    }

    /// Encodes a network magic as a value tree.
    pub fn encode(&self) -> (r: Value)
        ensures
            r@ == self.spec_encode(),
    {
        Value::U64(self.0 as u64)
    }

    /// Decodes a network magic from a value tree. The decode is all or nothing: a
    /// failure gives no part of it.
    pub fn decode(value: Value) -> (r: Result<ProtocolMagic, DecodeError>)
        ensures
            r == Self::spec_decode(value@),
    {
        match value.u32() {
            Ok(v) => Ok(ProtocolMagic(v)),
            Err(e) => Err(e),
        }
    }

    /// Reads a network magic from the cursor. On failure the cursor stays where the
    /// failing read left it.
    pub fn deserialize(raw: &mut RawCbor) -> (r: Result<ProtocolMagic, DecodeError>)
        ensures
            (r, unread(*final(raw))) == Self::spec_deserialize(unread(*old(raw))),
    {
        match unsigned_32(raw) {
            Ok(v) => Ok(ProtocolMagic(v)),
            Err(e) => Err(e),
        }
    }
}

/// The number of blocks since genesis, written as a sequence of one
/// unsigned integer.
#[derive(Debug, Clone, Copy, PartialEq, Eq, Structural)]
pub struct ChainDifficulty(pub u64);

impl ChainDifficulty {
    /// The value tree that a chain difficulty encodes to.
    pub open spec fn spec_encode(self) -> Term {
        Term::Array(seq![Term::U64(self.0)])
    }

    /// What decoding a value tree as a chain difficulty gives.
    pub open spec fn spec_decode(t: Term) -> Result<ChainDifficulty, DecodeError> {
        match spec_elements(t) {
            Ok(items) => if items.len() == 0 {
                Err(DecodeError::Truncated)
            } else {
                match spec_u64(items[0]) {
                    Ok(v) => if items.len() == 1 {
                        Ok(ChainDifficulty(v))
                    } else {
                        Err(DecodeError::TrailingData)
                    },
                    Err(e) => Err(e),
                }
            },
            Err(e) => Err(e),
        }
    }

    /// What reading a chain difficulty from the front of `s` gives, and the bytes left.
    pub open spec fn spec_deserialize(s: Seq<u8>) -> (
        Result<ChainDifficulty, DecodeError>,
        Seq<u8>,
    ) {
        match spec_tuple(s, 1) {
            (Ok(_), rest) => match spec_unsigned_integer(rest) {
                (Ok(v), rest) => (Ok(ChainDifficulty(v)), rest),
                (Err(e), rest) => (Err(e), rest),
            },
            (Err(e), rest) => (Err(e), rest),
        }
    }

    /// Encodes a chain difficulty as a value tree.
    pub fn encode(&self) -> (r: Value)
        ensures
            r@ == self.spec_encode(),
    {
        let mut items: Vec<Value> = Vec::new();
        items.push(Value::U64(self.0));
        assert(models(items@) =~= seq![Term::U64(self.0)]);
        Value::Array(items)
    }

    /// Decodes a chain difficulty from a value tree. The decode is all or nothing: a
    /// failure gives no part of it.
    pub fn decode(value: Value) -> (r: Result<ChainDifficulty, DecodeError>)
        ensures
            r == Self::spec_decode(value@),
    {
        match value.array() {
            Ok(items) => {
                let mut items = items;
                match take_first(&mut items) {
                    Ok(first) => match first.u64() {
                        Ok(v) => {
                            assert(models(items@).len() == items@.len());
                            if items.len() == 0 {
                                Ok(ChainDifficulty(v))
                            } else {
                                Err(DecodeError::TrailingData)
                            }
                        },
                        Err(e) => Err(e),
                    },
                    Err(e) => Err(e),
                }
            },
            Err(e) => Err(e),
        }
    }

    /// Reads a chain difficulty from the cursor. On failure the cursor stays where the
    /// failing read left it.
    pub fn deserialize(raw: &mut RawCbor) -> (r: Result<ChainDifficulty, DecodeError>)
        ensures
            (r, unread(*final(raw))) == Self::spec_deserialize(unread(*old(raw))),
    {
        match tuple(raw, 1) {
            Ok(_) => match unsigned_integer(raw) {
                Ok(v) => Ok(ChainDifficulty(v)),
                Err(e) => Err(e),
            },
            Err(e) => Err(e),
        }
    }
}

/// The open extension attributes of a block header. Its view is the model
/// of the value it holds.
#[derive(Debug, PartialEq)]
pub struct BlockHeaderAttributes(pub Value);

impl View for BlockHeaderAttributes {
    type V = Term;

    open spec fn view(&self) -> Term {
        self.0@
    }
}

impl Clone for BlockHeaderAttributes {
    fn clone(&self) -> (r: BlockHeaderAttributes)
        ensures
            r@ == self@,
    {
        BlockHeaderAttributes(self.0.duplicate())
    }
}

/// Whether a value is a mapping, definite or open.
pub open spec fn is_mapping(t: Term) -> bool {
    t is Object || t is IObject
}

impl BlockHeaderAttributes {
    /// Attributes are a mapping.
    pub open spec fn wf(&self) -> bool {
        is_mapping(self@)
    }

    /// What decoding a value tree as header attributes gives: the value
    /// itself where it is a mapping.
    pub open spec fn spec_decode(t: Term) -> Result<Term, DecodeError> {
        if is_mapping(t) {
            Ok(t)
        } else {
            Err(wrong_kind(Major::Object, t))
        }
    }

    /// On the wire the attributes are a map, definite or open, with
    /// whatever entries; an item of any other type is refused before it is
    /// read.
    pub open spec fn spec_deserialize(s: Seq<u8>) -> (Result<Term, DecodeError>, Seq<u8>) {
        match spec_cbor_type(s) {
            Ok(found) => if found == Major::Object {
                spec_value(s)
            } else {
                (
                    Err(
                        DecodeError::StructuralMismatch(
                            Mismatch::WrongType { expected: Major::Object, found },
                        ),
                    ),
                    s,
                )
            },
            Err(e) => (Err(e), s),
        }
    }

    /// Encodes header attributes as a value tree.
    pub fn encode(&self) -> (r: Value)
        ensures
            r@ == self@,
    {
        self.0.duplicate()
    }

    /// Decodes header attributes from a value tree: a mapping is taken as
    /// it is, any other value is refused.
    pub fn decode(value: Value) -> (r: Result<BlockHeaderAttributes, DecodeError>)
        ensures
            match Self::spec_decode(value@) {
                Ok(t) => r matches Ok(a) && a@ == t && a.wf(),
                Err(e) => r == Err::<BlockHeaderAttributes, DecodeError>(e),
            },
    {
        match value {
            Value::Object(entries) => Ok(BlockHeaderAttributes(Value::Object(entries))),
            Value::IObject(entries) => Ok(BlockHeaderAttributes(Value::IObject(entries))),
            other => Err(
                DecodeError::StructuralMismatch(
                    Mismatch::WrongType { expected: Major::Object, found: other.major() },
                ),
            ),
        }
    }

    /// Reads header attributes from the cursor. On failure the cursor stays where the
    /// failing read left it.
    pub fn deserialize(raw: &mut RawCbor) -> (r: Result<BlockHeaderAttributes, DecodeError>)
        ensures
            match Self::spec_deserialize(unread(*old(raw))).0 {
                Ok(t) => r matches Ok(a) && a@ == t && a.wf(),
                Err(e) => r == Err::<BlockHeaderAttributes, DecodeError>(e),
            },
            unread(*final(raw)) == Self::spec_deserialize(unread(*old(raw))).1,
    {
        let found = match cbor_type(raw) {
            Ok(found) => found,
            Err(e) => {
                return Err(e);
            },
        };
        if found != Major::Object {
            return Err(
                DecodeError::StructuralMismatch(
                    Mismatch::WrongType { expected: Major::Object, found },
                ),
            );
        }
        match Value::deserialize(raw) {
            Ok(value) => Ok(BlockHeaderAttributes(value)),
            Err(e) => Err(e),
        }
    }
}

} // verus!
