//! The genesis block model: body proof, body, consensus record, header and
//! block, each decodable from a value tree and from a byte cursor.

use crate::error::{Context, DecodeError, Entity, Field, Mismatch};
use crate::stream::{
    array, at_end, cbor_type, collected_then, continued, lemma_byte_string_consumes,
    spec_complete, spec_array, spec_map, spec_special_item,
    spec_tuple, spec_unsigned_integer, special, tuple, unsigned_integer,
};
use crate::types::{
    is_mapping, Blake2b256, BlockHeaderAttributes, ChainDifficulty, EpochId, HeaderHash, ProtocolMagic,
    StakeholderId,
};
use crate::value::{
    models, reversed, spec_elements, spec_open_elements, spec_u32, take_first, Term, Value,
};
use crate::wire::{cursor_over, major_of, unread, Len, Major, Special};
use cbor_event::de::RawCbor;
use vstd::prelude::*;

verus! {

/// A result with its failure, if any, wrapped in `context`.
pub open spec fn embed_result<T>(r: Result<T, DecodeError>, context: Context) -> Result<
    T,
    DecodeError,
> {
    match r {
        Ok(v) => Ok(v),
        Err(e) => Err(DecodeError::Embedded(context, Box::new(e))),
    }
}

/// A read with its failure, if any, wrapped in `context`; the bytes left
/// stay as they are.
pub open spec fn embed_read<T>(read: (Result<T, DecodeError>, Seq<u8>), context: Context) -> (
    Result<T, DecodeError>,
    Seq<u8>,
) {
    (embed_result(read.0, context), read.1)
}

/// The element at position `i` of a sequence of values: `Truncated` where
/// the sequence is too short.
pub open spec fn spec_element(items: Seq<Term>, i: int) -> Result<Term, DecodeError> {
    if 0 <= i < items.len() {
        Ok(items[i])
    } else {
        Err(DecodeError::Truncated)
    }
}

/// The field at position `i` of an aggregate, decoded by `decode`; a failure
/// is wrapped with the name of the field.
pub open spec fn spec_field<T>(
    items: Seq<Term>,
    i: int,
    field: Field,
    decode: spec_fn(Term) -> Result<T, DecodeError>,
) -> Result<T, DecodeError> {
    embed_result(
        match spec_element(items, i) {
            Ok(t) => decode(t),
            Err(e) => Err(e),
        },
        Context::In(field),
    )
}

/// `TrailingData` where a sequence holds more than `arity` elements.
pub open spec fn spec_no_more(items: Seq<Term>, arity: int) -> Result<(), DecodeError> {
    if items.len() > arity {
        Err(DecodeError::TrailingData)
    } else {
        Ok(())
    }
}

/// Wraps the failure of a result, if there is one, in `context`.
pub fn embed<T>(r: Result<T, DecodeError>, context: Context) -> (out: Result<T, DecodeError>)
    ensures
        out == embed_result(r, context),
{
    match r {
        Ok(v) => Ok(v),
        Err(e) => Err(e.embed(context)),
    }
}

/// A digest that summarises the contents of a body. Its view is its 32
/// bytes.
#[derive(Debug, PartialEq, Eq)]
pub struct BodyProof(pub Blake2b256);

impl View for BodyProof {
    type V = Seq<u8>;

    open spec fn view(&self) -> Seq<u8> {
        self.0@
    }
}

impl Clone for BodyProof {
    fn clone(&self) -> (r: BodyProof)
        ensures
            r@ == self@,
    {
        BodyProof(self.0.clone())
    }
}

impl BodyProof {
    /// The proof holds exactly 32 bytes.
    pub open spec fn wf(&self) -> bool {
        self.0.wf()
    }

    /// The value tree that a body proof encodes to.
    pub open spec fn spec_encode(proof: Seq<u8>) -> Term {
        Blake2b256::spec_encode(proof)
    }

    /// What decoding a value tree as a body proof gives.
    pub open spec fn spec_decode(t: Term) -> Result<Seq<u8>, DecodeError> {
        embed_result(Blake2b256::spec_decode(t), Context::Decoding(Entity::BodyProof))
    }

    /// What reading a body proof from the front of `s` gives, and the bytes left.
    pub open spec fn spec_deserialize(s: Seq<u8>) -> (Result<Seq<u8>, DecodeError>, Seq<u8>) {
        embed_read(Blake2b256::spec_deserialize(s), Context::Decoding(Entity::BodyProof))
    }

    /// Encodes a body proof as a value tree.
    pub fn encode(&self) -> (r: Value)
        ensures
            r@ == Self::spec_encode(self@),
    {
        self.0.encode()
    }

    /// Decodes a body proof from a value tree. The decode is all or nothing: a
    /// failure gives no part of it.
    pub fn decode(value: Value) -> (r: Result<BodyProof, DecodeError>)
        ensures
            match Self::spec_decode(value@) {
                Ok(proof) => r matches Ok(p) && p@ == proof && p.wf(),
                Err(e) => r == Err::<BodyProof, DecodeError>(e),
            },
    {
        match Blake2b256::decode(value) {
            Ok(hash) => Ok(BodyProof(hash)),
            Err(e) => Err(e.embed(Context::Decoding(Entity::BodyProof))),
        }
    }

    /// Reads a body proof from the cursor. On failure the cursor stays where the
    /// failing read left it.
    pub fn deserialize(raw: &mut RawCbor) -> (r: Result<BodyProof, DecodeError>)
        ensures
            match Self::spec_deserialize(unread(*old(raw))).0 {
                Ok(proof) => r matches Ok(p) && p@ == proof && p.wf(),
                Err(e) => r == Err::<BodyProof, DecodeError>(e),
            },
            unread(*final(raw)) == Self::spec_deserialize(unread(*old(raw))).1,
    {
        match Blake2b256::deserialize(raw) {
            Ok(hash) => Ok(BodyProof(hash)),
            Err(e) => Err(e.embed(Context::Decoding(Entity::BodyProof))),
        }
    }

    /// Decodes a body proof from bytes that hold it and nothing more.
    pub fn from_bytes(bytes: &[u8]) -> (r: Result<BodyProof, DecodeError>)
        ensures
            match spec_complete(Self::spec_deserialize(bytes@)) {
                Ok(proof) => r matches Ok(v) && v@ == proof && v.wf(),
                Err(e) => r == Err::<BodyProof, DecodeError>(e),
            },
    {
        let mut raw = cursor_over(bytes);
        match Self::deserialize(&mut raw) {
            Ok(v) => {
                if at_end(&raw) {
                    Ok(v)
                } else {
                    Err(DecodeError::TrailingData)
                }
            },
            Err(e) => Err(e),
        }
    }
}

/// The consensus record of a genesis block: the epoch it opens and the
/// chain difficulty.
#[derive(Debug, Clone, Copy, PartialEq, Eq, Structural)]
pub struct Consensus {
    pub epoch: EpochId,
    pub chain_difficulty: ChainDifficulty,
}

impl Consensus {
    /// The value tree that a consensus record encodes to.
    pub open spec fn spec_encode(self) -> Term {
        Term::Array(seq![Term::U64(self.epoch as u64), self.chain_difficulty.spec_encode()])
    }

    /// The record that a sequence of exactly two values stands for: the
    /// fields are taken by position, the first failure wins with the name of
    /// its field, and anything after the second field is trailing data.
    pub open spec fn spec_decode_fields(t: Term) -> Result<Consensus, DecodeError> {
        match spec_elements(t) {
            Err(e) => Err(e),
            Ok(items) => match spec_field(items, 0, Field::Epoch, |t: Term| spec_u32(t)) {
                Err(e) => Err(e),
                Ok(epoch) => match spec_field(
                    items,
                    1,
                    Field::ChainDifficulty,
                    |t: Term| ChainDifficulty::spec_decode(t),
                ) {
                    Err(e) => Err(e),
                    Ok(chain_difficulty) => match spec_no_more(items, 2) {
                        Err(e) => Err(e),
                        Ok(_) => Ok(Consensus { epoch, chain_difficulty }),
                    },
                },
            },
        }
    }

    /// What decoding a value tree as a consensus record gives.
    pub open spec fn spec_decode(t: Term) -> Result<Consensus, DecodeError> {
        embed_result(Self::spec_decode_fields(t), Context::Decoding(Entity::Consensus))
    }

    /// The epoch on the wire: an unsigned integer, of which the low 32 bits
    /// are kept.
    pub open spec fn spec_epoch(s: Seq<u8>) -> (Result<EpochId, DecodeError>, Seq<u8>) {
        match spec_unsigned_integer(s) {
            (Ok(v), rest) => (Ok(v as u32), rest),
            (Err(e), rest) => (Err(e), rest),
        }
    }

    /// The record on the wire: the head of an array of exactly two
    /// elements, the epoch, the chain difficulty.
    pub open spec fn spec_deserialize_fields(s: Seq<u8>) -> (
        Result<Consensus, DecodeError>,
        Seq<u8>,
    ) {
        match spec_tuple(s, 2) {
            (Err(e), rest) => (Err(e), rest),
            (Ok(_), rest) => match embed_read(Self::spec_epoch(rest), Context::In(Field::Epoch)) {
                (Err(e), rest) => (Err(e), rest),
                (Ok(epoch), rest) => match embed_read(
                    ChainDifficulty::spec_deserialize(rest),
                    Context::In(Field::ChainDifficulty),
                ) {
                    (Err(e), rest) => (Err(e), rest),
                    (Ok(chain_difficulty), rest) => (
                        Ok(Consensus { epoch, chain_difficulty }),
                        rest,
                    ),
                },
            },
        }
    }

    /// What reading a consensus record from the front of `s` gives, and the bytes left.
    pub open spec fn spec_deserialize(s: Seq<u8>) -> (Result<Consensus, DecodeError>, Seq<u8>) {
        embed_read(Self::spec_deserialize_fields(s), Context::Decoding(Entity::Consensus))
    }

    /// Encodes a consensus record as a value tree.
    pub fn encode(&self) -> (r: Value)
        ensures
            r@ == self.spec_encode(),
    {
        let mut items: Vec<Value> = Vec::new();
        items.push(Value::U64(self.epoch as u64));
        items.push(self.chain_difficulty.encode());
        assert(models(items@) =~= seq![
            Term::U64(self.epoch as u64),
            self.chain_difficulty.spec_encode(),
        ]);
        Value::Array(items)
    }

    fn decode_fields(value: Value) -> (r: Result<Consensus, DecodeError>)
        ensures
            r == Self::spec_decode_fields(value@),
    {
        let mut items = match value.array() {
            Ok(items) => items,
            Err(e) => {
                return Err(e);
            },
        };
        let epoch = match take_first(&mut items) {
            Ok(v) => v.u32(),
            Err(e) => Err(e),
        };
        let epoch = match embed(epoch, Context::In(Field::Epoch)) {
            Ok(epoch) => epoch,
            Err(e) => {
                return Err(e);
            },
        };
        let chain_difficulty = match take_first(&mut items) {
            Ok(v) => ChainDifficulty::decode(v),
            Err(e) => Err(e),
        };
        let chain_difficulty = match embed(chain_difficulty, Context::In(Field::ChainDifficulty)) {
            Ok(chain_difficulty) => chain_difficulty,
            Err(e) => {
                return Err(e);
            },
        };
        assert(models(items@).len() == items@.len());
        if items.len() != 0 {
            return Err(DecodeError::TrailingData);
        }
        Ok(Consensus { epoch, chain_difficulty })
    }

    /// Decodes a consensus record from a value tree. The decode is all or nothing: a
    /// failure gives no part of it.
    pub fn decode(value: Value) -> (r: Result<Consensus, DecodeError>)
        ensures
            r == Self::spec_decode(value@),
    {
        embed(Self::decode_fields(value), Context::Decoding(Entity::Consensus))
    }

    fn deserialize_fields(raw: &mut RawCbor) -> (r: Result<Consensus, DecodeError>)
        ensures
            (r, unread(*final(raw))) == Self::spec_deserialize_fields(unread(*old(raw))),
    {
        match tuple(raw, 2) {
            Ok(_) => {},
            Err(e) => {
                return Err(e);
            },
        }
        let epoch = match unsigned_integer(raw) {
            Ok(v) => #[verifier::truncate]
            (v as u32),
            Err(e) => {
                return Err(e.embed(Context::In(Field::Epoch)));
            },
        };
        let chain_difficulty = match ChainDifficulty::deserialize(raw) {
            Ok(v) => v,
            Err(e) => {
                return Err(e.embed(Context::In(Field::ChainDifficulty)));
            },
        };
        Ok(Consensus { epoch, chain_difficulty })
    }

    /// Reads a consensus record from the cursor. On failure the cursor stays where the
    /// failing read left it.
    pub fn deserialize(raw: &mut RawCbor) -> (r: Result<Consensus, DecodeError>)
        ensures
            (r, unread(*final(raw))) == Self::spec_deserialize(unread(*old(raw))),
    {
        embed(Self::deserialize_fields(raw), Context::Decoding(Entity::Consensus))
    }

    /// Decodes a consensus record from bytes that hold it and nothing more.
    pub fn from_bytes(bytes: &[u8]) -> (r: Result<Consensus, DecodeError>)
        ensures
            r == spec_complete(Self::spec_deserialize(bytes@)),
    {
        let mut raw = cursor_over(bytes);
        match Self::deserialize(&mut raw) {
            Ok(v) => {
                if at_end(&raw) {
                    Ok(v)
                } else {
                    Err(DecodeError::TrailingData)
                }
            },
            Err(e) => Err(e),
        }
    }
}

/// The identifiers of a sequence of stakeholders, in order.
pub open spec fn ids(leaders: Seq<StakeholderId>) -> Seq<Seq<u8>> {
    Seq::new(leaders.len(), |i: int| leaders[i]@)
}

/// The slot leaders at the front of `s`, up to and including the break
/// that ends them. Bytes that end before the break are a truncation; a
/// special item other than the break is an unexpected token.
pub open spec fn spec_leaders(s: Seq<u8>) -> (Result<Seq<Seq<u8>>, DecodeError>, Seq<u8>)
    decreases s.len(),
{
    if s.len() == 0 {
        (Err(DecodeError::Truncated), s)
    } else if major_of(s[0]) == Major::Special {
        match spec_special_item(s) {
            (Ok(Special::Break), rest) => (Ok(Seq::empty()), rest),
            (Ok(other), rest) => (Err(DecodeError::UnexpectedToken(other)), rest),
            (Err(e), rest) => (Err(e), rest),
        }
    } else {
        match StakeholderId::spec_deserialize(s) {
            (Ok(id), rest) => {
                collected_then(seq![id], spec_leaders(rest))
            },
            (Err(e), rest) => (Err(e), rest),
        }
    }
}

/// The stakeholders that a sequence of values stands for, in order; the
/// first value that is no identifier fails the whole.
pub open spec fn spec_decode_leaders(items: Seq<Term>) -> Result<Seq<Seq<u8>>, DecodeError>
    decreases items.len(),
{
    if items.len() == 0 {
        Ok(Seq::empty())
    } else {
        match StakeholderId::spec_decode(items[0]) {
            Ok(id) => continued(seq![id], spec_decode_leaders(items.skip(1))),
            Err(e) => Err(e),
        }
    }
}

/// The body of a genesis block: the slot leaders of the epoch, the leader of
/// slot `i` at position `i`. Its view is the sequence of their identifiers.
#[derive(Debug, PartialEq, Eq)]
pub struct Body {
    pub slot_leaders: Vec<StakeholderId>,
}

impl View for Body {
    type V = Seq<Seq<u8>>;

    open spec fn view(&self) -> Seq<Seq<u8>> {
        ids(self.slot_leaders@)
    }
}

impl Clone for Body {
    fn clone(&self) -> (r: Body)
        ensures
            r@ == self@,
    {
        let mut slot_leaders: Vec<StakeholderId> = Vec::new();
        let mut i: usize = 0;
        while i < self.slot_leaders.len()
            invariant
                i <= self.slot_leaders.len(),
                slot_leaders@.len() == i,
                forall|j: int| 0 <= j < i ==> (#[trigger] slot_leaders@[j])@ == self.slot_leaders@[j]@,
            decreases self.slot_leaders.len() - i,
        {
            slot_leaders.push(self.slot_leaders[i].clone());
            i += 1;
        }
        Body { slot_leaders }
    }
}

impl Body {
    /// Every slot leader is a well-formed identifier.
    pub open spec fn wf(&self) -> bool {
        forall|i: int| 0 <= i < self.slot_leaders@.len() ==> (#[trigger] self.slot_leaders@[i]).wf()
    }

    /// A body on the wire: the head of an array of indefinite length, then
    /// the slot leaders up to the break.
    pub open spec fn spec_deserialize_fields(s: Seq<u8>) -> (
        Result<Seq<Seq<u8>>, DecodeError>,
        Seq<u8>,
    ) {
        match spec_array(s) {
            (Ok(len), rest) => if len == Len::Indefinite {
                spec_leaders(rest)
            } else {
                (
                    Err(
                        DecodeError::StructuralMismatch(
                            Mismatch::WrongArity { expected: Len::Indefinite, found: len },
                        ),
                    ),
                    rest,
                )
            },
            (Err(e), rest) => (Err(e), rest),
        }
    }

    /// What reading a body from the front of `s` gives, and the bytes left.
    pub open spec fn spec_deserialize(s: Seq<u8>) -> (
        Result<Seq<Seq<u8>>, DecodeError>,
        Seq<u8>,
    ) {
        embed_read(Self::spec_deserialize_fields(s), Context::Decoding(Entity::Body))
    }

    /// A body as a value: a sequence of indefinite length that holds the
    /// identifiers in order.
    pub open spec fn spec_encode(leaders: Seq<Seq<u8>>) -> Term {
        Term::IArray(Seq::new(leaders.len(), |i: int| StakeholderId::spec_encode(leaders[i])))
    }

    /// What decoding a value tree as a body gives.
    pub open spec fn spec_decode(t: Term) -> Result<Seq<Seq<u8>>, DecodeError> {
        embed_result(
            match spec_open_elements(t) {
                Ok(items) => spec_decode_leaders(items),
                Err(e) => Err(e),
            },
            Context::Decoding(Entity::Body),
        )
    }

    /// Encodes a body as a value tree.
    pub fn encode(&self) -> (r: Value)
        ensures
            r@ == Self::spec_encode(self@),
    {
        let mut items: Vec<Value> = Vec::new();
        let mut i: usize = 0;
        while i < self.slot_leaders.len()
            invariant
                i <= self.slot_leaders.len(),
                items@.len() == i,
                forall|j: int|
                    0 <= j < i ==> (#[trigger] items@[j])@ == StakeholderId::spec_encode(
                        self.slot_leaders@[j]@,
                    ),
            decreases self.slot_leaders.len() - i,
        {
            items.push(self.slot_leaders[i].encode());
            i += 1;
        }
        assert(models(items@) =~= Seq::new(
            self@.len(),
            |i: int| StakeholderId::spec_encode(self@[i]),
        ));
        Value::IArray(items)
    }

    fn decode_leaders(items: Vec<Value>) -> (r: Result<Vec<StakeholderId>, DecodeError>)
        ensures
            match spec_decode_leaders(models(items@)) {
                Ok(leaders) => r matches Ok(v) && ids(v@) == leaders && (forall|i: int|
                    0 <= i < v@.len() ==> (#[trigger] v@[i]).wf()),
                Err(e) => r == Err::<Vec<StakeholderId>, DecodeError>(e),
            },
    {
        let ghost all = models(items@);
        let mut pending = reversed(items);
        let mut slot_leaders: Vec<StakeholderId> = Vec::new();
        assert(all.skip(0) =~= all);
        while pending.len() > 0
            invariant
                all == models(items@),
                pending@.len() <= all.len(),
                forall|j: int|
                    0 <= j < pending@.len() ==> (#[trigger] pending@[j])@ == all[all.len() - 1
                        - j],
                spec_decode_leaders(all) == continued(
                    ids(slot_leaders@),
                    spec_decode_leaders(all.skip(all.len() - pending@.len())),
                ),
                forall|i: int|
                    0 <= i < slot_leaders@.len() ==> (#[trigger] slot_leaders@[i]).wf(),
            decreases pending@.len(),
        {
            let ghost at = all.len() - pending@.len();
            let ghost ahead = all.skip(at);
            let ghost before = ids(slot_leaders@);
            let next = pending.pop().unwrap();
            proof {
                assert(ahead.skip(1) =~= all.skip(at + 1));
            }
            match StakeholderId::decode(next) {
                Ok(id) => {
                    proof {
                        if let Ok(more) = spec_decode_leaders(all.skip(at + 1)) {
                            assert(before + (seq![id@] + more) =~= before.push(id@) + more);
                        }
                    }
                    slot_leaders.push(id);
                    assert(ids(slot_leaders@) =~= before.push(id@));
                },
                Err(e) => {
                    return Err(e);
                },
            }
        }
        Ok(slot_leaders)
    }

    /// Decodes a body from a value tree. The decode is all or nothing: a
    /// failure gives no part of it.
    pub fn decode(value: Value) -> (r: Result<Body, DecodeError>)
        ensures
            match Self::spec_decode(value@) {
                Ok(leaders) => r matches Ok(b) && b@ == leaders && b.wf(),
                Err(e) => r == Err::<Body, DecodeError>(e),
            },
    {
        let items = match value.iarray() {
            Ok(items) => items,
            Err(e) => {
                return Err(e.embed(Context::Decoding(Entity::Body)));
            },
        };
        match Self::decode_leaders(items) {
            Ok(slot_leaders) => Ok(Body { slot_leaders }),
            Err(e) => Err(e.embed(Context::Decoding(Entity::Body))),
        }
    }

    fn deserialize_leaders(raw: &mut RawCbor) -> (r: Result<Vec<StakeholderId>, DecodeError>)
        ensures
            match spec_leaders(unread(*old(raw))).0 {
                Ok(leaders) => r matches Ok(v) && ids(v@) == leaders && (forall|i: int|
                    0 <= i < v@.len() ==> (#[trigger] v@[i]).wf()),
                Err(e) => r == Err::<Vec<StakeholderId>, DecodeError>(e),
            },
            unread(*final(raw)) == spec_leaders(unread(*old(raw))).1,
    {
        let mut slot_leaders: Vec<StakeholderId> = Vec::new();
        let ghost start = unread(*raw);
        loop
            invariant
                start == unread(*old(raw)),
                spec_leaders(start) == collected_then(
                    ids(slot_leaders@),
                    spec_leaders(unread(*raw)),
                ),
                forall|i: int|
                    0 <= i < slot_leaders@.len() ==> (#[trigger] slot_leaders@[i]).wf(),
            decreases unread(*raw).len(),
        {
            let ghost here = unread(*raw);
            let ghost before = ids(slot_leaders@);
            let t = match cbor_type(raw) {
                Ok(t) => t,
                Err(e) => {
                    return Err(e);
                },
            };
            if t == Major::Special {
                match special(raw) {
                    Ok(Special::Break) => {
                        return Ok(slot_leaders);
                    },
                    Ok(other) => {
                        return Err(DecodeError::UnexpectedToken(other));
                    },
                    Err(e) => {
                        return Err(e);
                    },
                }
            } else {
                match StakeholderId::deserialize(raw) {
                    Ok(id) => {
                        proof {
                            let next = spec_leaders(unread(*raw));
                            if let Ok(more) = next.0 {
                                assert(before + (seq![id@] + more) =~= before.push(id@) + more);
                            }
                        }
                        slot_leaders.push(id);
                        assert(ids(slot_leaders@) =~= before.push(id@));
                    },
                    Err(e) => {
                        return Err(e);
                    },
                }
            }
        }
    }

    /// Reads a body from the cursor. On failure the cursor stays where the
    /// failing read left it.
    pub fn deserialize(raw: &mut RawCbor) -> (r: Result<Body, DecodeError>)
        ensures
            match Self::spec_deserialize(unread(*old(raw))).0 {
                Ok(leaders) => r matches Ok(b) && b@ == leaders && b.wf(),
                Err(e) => r == Err::<Body, DecodeError>(e),
            },
            unread(*final(raw)) == Self::spec_deserialize(unread(*old(raw))).1,
    {
        let len = match array(raw) {
            Ok(len) => len,
            Err(e) => {
                return Err(e.embed(Context::Decoding(Entity::Body)));
            },
        };
        if len != Len::Indefinite {
            return Err(
                DecodeError::StructuralMismatch(
                    Mismatch::WrongArity { expected: Len::Indefinite, found: len },
                ).embed(Context::Decoding(Entity::Body)),
            );
        }
        match Self::deserialize_leaders(raw) {
            Ok(slot_leaders) => Ok(Body { slot_leaders }),
            Err(e) => Err(e.embed(Context::Decoding(Entity::Body))),
        }
    }

    /// Decodes a body from bytes that hold it and nothing more.
    pub fn from_bytes(bytes: &[u8]) -> (r: Result<Body, DecodeError>)
        ensures
            match spec_complete(Self::spec_deserialize(bytes@)) {
                Ok(leaders) => r matches Ok(v) && v@ == leaders && v.wf(),
                Err(e) => r == Err::<Body, DecodeError>(e),
            },
    {
        let mut raw = cursor_over(bytes);
        match Self::deserialize(&mut raw) {
            Ok(v) => {
                if at_end(&raw) {
                    Ok(v)
                } else {
                    Err(DecodeError::TrailingData)
                }
            },
            Err(e) => Err(e),
        }
    }
}

/// What a block header means: its fields, with the digests as byte
/// sequences and the attributes as a value model.
pub struct HeaderModel {
    pub protocol_magic: ProtocolMagic,
    pub previous_header: Seq<u8>,
    pub body_proof: Seq<u8>,
    pub consensus: Consensus,
    pub extra_data: Term,
}

impl HeaderModel {
    /// Both digests hold 32 bytes and the attributes are a mapping.
    pub open spec fn wf(self) -> bool {
        self.previous_header.len() == 32 && self.body_proof.len() == 32 && is_mapping(
            self.extra_data,
        )
    }
}

/// The header of a genesis block. The previous header is named by its hash
/// only.
#[derive(Debug, PartialEq)]
pub struct BlockHeader {
    pub protocol_magic: ProtocolMagic,
    pub previous_header: HeaderHash,
    pub body_proof: BodyProof,
    pub consensus: Consensus,
    pub extra_data: BlockHeaderAttributes,
}

impl View for BlockHeader {
    type V = HeaderModel;

    open spec fn view(&self) -> HeaderModel {
        HeaderModel {
            protocol_magic: self.protocol_magic,
            previous_header: self.previous_header@,
            body_proof: self.body_proof@,
            consensus: self.consensus,
            extra_data: self.extra_data@,
        }
    }
}

impl Clone for BlockHeader {
    fn clone(&self) -> (r: BlockHeader)
        ensures
            r@ == self@,
    {
        BlockHeader {
            protocol_magic: self.protocol_magic,
            previous_header: self.previous_header.clone(),
            body_proof: self.body_proof.clone(),
            consensus: self.consensus,
            extra_data: self.extra_data.clone(),
        }
    }
}

impl BlockHeader {
    /// Both digests of the header hold exactly 32 bytes and its attributes
    /// are a mapping.
    pub open spec fn wf(&self) -> bool {
        self.previous_header.wf() && self.body_proof.wf() && self.extra_data.wf()
    }

    /// A header as a value: a sequence of its five fields in order.
    pub open spec fn spec_encode(header: HeaderModel) -> Term {
        Term::Array(
            seq![
                header.protocol_magic.spec_encode(),
                Blake2b256::spec_encode(header.previous_header),
                BodyProof::spec_encode(header.body_proof),
                header.consensus.spec_encode(),
                header.extra_data,
            ],
        )
    }

    /// The header that a sequence of exactly five values stands for: the
    /// fields are taken by position, the first failure wins with the name of
    /// its field, and anything after the fifth field is trailing data.
    pub open spec fn spec_decode_fields(t: Term) -> Result<HeaderModel, DecodeError> {
        match spec_elements(t) {
            Err(e) => Err(e),
            Ok(items) => match spec_field(
                items,
                0,
                Field::ProtocolMagic,
                |t: Term| ProtocolMagic::spec_decode(t),
            ) {
                Err(e) => Err(e),
                Ok(protocol_magic) => match spec_field(
                    items,
                    1,
                    Field::PreviousHeaderHash,
                    |t: Term| Blake2b256::spec_decode(t),
                ) {
                    Err(e) => Err(e),
                    Ok(previous_header) => match spec_field(
                        items,
                        2,
                        Field::BodyProof,
                        |t: Term| BodyProof::spec_decode(t),
                    ) {
                        Err(e) => Err(e),
                        Ok(body_proof) => match spec_field(
                            items,
                            3,
                            Field::Consensus,
                            |t: Term| Consensus::spec_decode(t),
                        ) {
                            Err(e) => Err(e),
                            Ok(consensus) => match spec_field(
                                items,
                                4,
                                Field::ExtraData,
                                |t: Term| BlockHeaderAttributes::spec_decode(t),
                            ) {
                                Err(e) => Err(e),
                                Ok(extra_data) => match spec_no_more(items, 5) {
                                    Err(e) => Err(e),
                                    Ok(_) => Ok(
                                        HeaderModel {
                                            protocol_magic,
                                            previous_header,
                                            body_proof,
                                            consensus,
                                            extra_data,
                                        },
                                    ),
                                },
                            },
                        },
                    },
                },
            },
        }
    }

    /// What decoding a value tree as a block header gives.
    pub open spec fn spec_decode(t: Term) -> Result<HeaderModel, DecodeError> {
        embed_result(Self::spec_decode_fields(t), Context::Decoding(Entity::BlockHeader))
    }

    /// A header on the wire: the head of an array of exactly five elements,
    /// then the five fields in order; the first failure wins with the name
    /// of its field.
    pub open spec fn spec_deserialize_fields(s: Seq<u8>) -> (
        Result<HeaderModel, DecodeError>,
        Seq<u8>,
    ) {
        match spec_tuple(s, 5) {
            (Err(e), rest) => (Err(e), rest),
            (Ok(_), rest) => match embed_read(
                ProtocolMagic::spec_deserialize(rest),
                Context::In(Field::ProtocolMagic),
            ) {
                (Err(e), rest) => (Err(e), rest),
                (Ok(protocol_magic), rest) => match embed_read(
                    Blake2b256::spec_deserialize(rest),
                    Context::In(Field::PreviousHeaderHash),
                ) {
                    (Err(e), rest) => (Err(e), rest),
                    (Ok(previous_header), rest) => match embed_read(
                        BodyProof::spec_deserialize(rest),
                        Context::In(Field::BodyProof),
                    ) {
                        (Err(e), rest) => (Err(e), rest),
                        (Ok(body_proof), rest) => match embed_read(
                            Consensus::spec_deserialize(rest),
                            Context::In(Field::Consensus),
                        ) {
                            (Err(e), rest) => (Err(e), rest),
                            (Ok(consensus), rest) => match embed_read(
                                BlockHeaderAttributes::spec_deserialize(rest),
                                Context::In(Field::ExtraData),
                            ) {
                                (Err(e), rest) => (Err(e), rest),
                                (Ok(extra_data), rest) => (
                                    Ok(
                                        HeaderModel {
                                            protocol_magic,
                                            previous_header,
                                            body_proof,
                                            consensus,
                                            extra_data,
                                        },
                                    ),
                                    rest,
                                ),
                            },
                        },
                    },
                },
            },
        }
    }

    /// What reading a block header from the front of `s` gives, and the bytes left.
    pub open spec fn spec_deserialize(s: Seq<u8>) -> (Result<HeaderModel, DecodeError>, Seq<u8>) {
        embed_read(Self::spec_deserialize_fields(s), Context::Decoding(Entity::BlockHeader))
    }

    /// A header from parts that are already validated.
    pub fn new(
        pm: ProtocolMagic,
        pb: HeaderHash,
        bp: BodyProof,
        c: Consensus,
        ed: BlockHeaderAttributes,
    ) -> (r: BlockHeader)
        ensures
            r.protocol_magic == pm,
            r.previous_header == pb,
            r.body_proof == bp,
            r.consensus == c,
            r.extra_data == ed,
    {
        BlockHeader {
            protocol_magic: pm,
            previous_header: pb,
            body_proof: bp,
            consensus: c,
            extra_data: ed,
        }
    }

    /// Encodes a block header as a value tree.
    pub fn encode(&self) -> (r: Value)
        ensures
            r@ == Self::spec_encode(self@),
    {
        let mut items: Vec<Value> = Vec::new();
        items.push(self.protocol_magic.encode());
        items.push(self.previous_header.encode());
        items.push(self.body_proof.encode());
        items.push(self.consensus.encode());
        items.push(self.extra_data.encode());
        assert(models(items@) =~= seq![
            self@.protocol_magic.spec_encode(),
            Blake2b256::spec_encode(self@.previous_header),
            BodyProof::spec_encode(self@.body_proof),
            self@.consensus.spec_encode(),
            self@.extra_data,
        ]);
        Value::Array(items)
    }

    fn decode_fields(value: Value) -> (r: Result<BlockHeader, DecodeError>)
        ensures
            match Self::spec_decode_fields(value@) {
                Ok(header) => r matches Ok(h) && h@ == header && h.wf(),
                Err(e) => r == Err::<BlockHeader, DecodeError>(e),
            },
    {
        let mut items = match value.array() {
            Ok(items) => items,
            Err(e) => {
                return Err(e);
            },
        };
        let ghost all = models(items@);
        let p_magic = match take_first(&mut items) {
            Ok(v) => ProtocolMagic::decode(v),
            Err(e) => Err(e),
        };
        let p_magic = match p_magic {
            Ok(v) => v,
            Err(e) => {
                return Err(e.embed(Context::In(Field::ProtocolMagic)));
            },
        };
        let prv_header = match take_first(&mut items) {
            Ok(v) => Blake2b256::decode(v),
            Err(e) => Err(e),
        };
        let prv_header = match prv_header {
            Ok(v) => v,
            Err(e) => {
                return Err(e.embed(Context::In(Field::PreviousHeaderHash)));
            },
        };
        let body_proof = match take_first(&mut items) {
            Ok(v) => BodyProof::decode(v),
            Err(e) => Err(e),
        };
        let body_proof = match body_proof {
            Ok(v) => v,
            Err(e) => {
                return Err(e.embed(Context::In(Field::BodyProof)));
            },
        };
        assert(models(items@) =~= all.skip(3));
        let consensus = match take_first(&mut items) {
            Ok(v) => Consensus::decode(v),
            Err(e) => Err(e),
        };
        let consensus = match consensus {
            Ok(v) => v,
            Err(e) => {
                return Err(e.embed(Context::In(Field::Consensus)));
            },
        };
        let extra_data = match take_first(&mut items) {
            Ok(v) => BlockHeaderAttributes::decode(v),
            Err(e) => Err(e),
        };
        let extra_data = match extra_data {
            Ok(v) => v,
            Err(e) => {
                return Err(e.embed(Context::In(Field::ExtraData)));
            },
        };
        assert(models(items@).len() == items@.len());
        if items.len() != 0 {
            return Err(DecodeError::TrailingData);
        }
        Ok(BlockHeader::new(p_magic, prv_header, body_proof, consensus, extra_data))
    }

    /// Decodes a block header from a value tree. The decode is all or nothing: a
    /// failure gives no part of it.
    pub fn decode(value: Value) -> (r: Result<BlockHeader, DecodeError>)
        ensures
            match Self::spec_decode(value@) {
                Ok(header) => r matches Ok(h) && h@ == header && h.wf(),
                Err(e) => r == Err::<BlockHeader, DecodeError>(e),
            },
    {
        match Self::decode_fields(value) {
            Ok(header) => Ok(header),
            Err(e) => Err(e.embed(Context::Decoding(Entity::BlockHeader))),
        }
    }

    fn deserialize_fields(raw: &mut RawCbor) -> (r: Result<BlockHeader, DecodeError>)
        ensures
            match Self::spec_deserialize_fields(unread(*old(raw))).0 {
                Ok(header) => r matches Ok(h) && h@ == header && h.wf(),
                Err(e) => r == Err::<BlockHeader, DecodeError>(e),
            },
            unread(*final(raw)) == Self::spec_deserialize_fields(unread(*old(raw))).1,
    {
        match tuple(raw, 5) {
            Ok(_) => {},
            Err(e) => {
                return Err(e);
            },
        }
        let p_magic = match ProtocolMagic::deserialize(raw) {
            Ok(v) => v,
            Err(e) => {
                return Err(e.embed(Context::In(Field::ProtocolMagic)));
            },
        };
        let prv_header = match Blake2b256::deserialize(raw) {
            Ok(v) => v,
            Err(e) => {
                return Err(e.embed(Context::In(Field::PreviousHeaderHash)));
            },
        };
        let body_proof = match BodyProof::deserialize(raw) {
            Ok(v) => v,
            Err(e) => {
                return Err(e.embed(Context::In(Field::BodyProof)));
            },
        };
        let consensus = match Consensus::deserialize(raw) {
            Ok(v) => v,
            Err(e) => {
                return Err(e.embed(Context::In(Field::Consensus)));
            },
        };
        let extra_data = match BlockHeaderAttributes::deserialize(raw) {
            Ok(v) => v,
            Err(e) => {
                return Err(e.embed(Context::In(Field::ExtraData)));
            },
        };
        Ok(BlockHeader::new(p_magic, prv_header, body_proof, consensus, extra_data))
    }

    /// Reads a block header from the cursor. On failure the cursor stays where the
    /// failing read left it.
    pub fn deserialize(raw: &mut RawCbor) -> (r: Result<BlockHeader, DecodeError>)
        ensures
            match Self::spec_deserialize(unread(*old(raw))).0 {
                Ok(header) => r matches Ok(h) && h@ == header && h.wf(),
                Err(e) => r == Err::<BlockHeader, DecodeError>(e),
            },
            unread(*final(raw)) == Self::spec_deserialize(unread(*old(raw))).1,
    {
        match Self::deserialize_fields(raw) {
            Ok(header) => Ok(header),
            Err(e) => Err(e.embed(Context::Decoding(Entity::BlockHeader))),
        }
    }

    /// Decodes a block header from bytes that hold it and nothing more.
    pub fn from_bytes(bytes: &[u8]) -> (r: Result<BlockHeader, DecodeError>)
        ensures
            match spec_complete(Self::spec_deserialize(bytes@)) {
                Ok(header) => r matches Ok(v) && v@ == header && v.wf(),
                Err(e) => r == Err::<BlockHeader, DecodeError>(e),
            },
    {
        let mut raw = cursor_over(bytes);
        match Self::deserialize(&mut raw) {
            Ok(v) => {
                if at_end(&raw) {
                    Ok(v)
                } else {
                    Err(DecodeError::TrailingData)
                }
            },
            Err(e) => Err(e),
        }
    }
}

/// What a block means: its header, the identifiers of its slot leaders and
/// the value in its extra slot.
pub struct BlockModel {
    pub header: HeaderModel,
    pub body: Seq<Seq<u8>>,
    pub extra: Term,
}

/// A genesis block: header, body and a slot reserved for later payload.
#[derive(Debug, PartialEq)]
pub struct Block {
    pub header: BlockHeader,
    pub body: Body,
    pub extra: Value,
}

impl View for Block {
    type V = BlockModel;

    open spec fn view(&self) -> BlockModel {
        BlockModel { header: self.header@, body: self.body@, extra: self.extra@ }
    }
}

impl Clone for Block {
    fn clone(&self) -> (r: Block)
        ensures
            r@ == self@,
    {
        Block {
            header: self.header.clone(),
            body: self.body.clone(),
            extra: self.extra.duplicate(),
        }
    }
}

impl Block {
    /// The header and every slot leader are well-formed.
    pub open spec fn wf(&self) -> bool {
        self.header.wf() && self.body.wf()
    }

    /// A block as a value: a sequence of its three fields in order.
    pub open spec fn spec_encode(block: BlockModel) -> Term {
        Term::Array(
            seq![
                BlockHeader::spec_encode(block.header),
                Body::spec_encode(block.body),
                block.extra,
            ],
        )
    }

    /// The block that a sequence of exactly three values stands for: the
    /// fields are taken by position, the first failure wins with the name of
    /// its field, and anything after the third field is trailing data.
    pub open spec fn spec_decode_fields(t: Term) -> Result<BlockModel, DecodeError> {
        match spec_elements(t) {
            Err(e) => Err(e),
            Ok(items) => match spec_field(
                items,
                0,
                Field::Header,
                |t: Term| BlockHeader::spec_decode(t),
            ) {
                Err(e) => Err(e),
                Ok(header) => match spec_field(
                    items,
                    1,
                    Field::Body,
                    |t: Term| Body::spec_decode(t),
                ) {
                    Err(e) => Err(e),
                    Ok(body) => match spec_field(
                        items,
                        2,
                        Field::Extra,
                        |t: Term| Ok::<Term, DecodeError>(t),
                    ) {
                        Err(e) => Err(e),
                        Ok(extra) => match spec_no_more(items, 3) {
                            Err(e) => Err(e),
                            Ok(_) => Ok(BlockModel { header, body, extra }),
                        },
                    },
                },
            },
        }
    }

    /// What decoding a value tree as a block gives.
    pub open spec fn spec_decode(t: Term) -> Result<BlockModel, DecodeError> {
        embed_result(Self::spec_decode_fields(t), Context::Decoding(Entity::Block))
    }

    /// The extra slot on the wire is a pair of an array and a map. Only the
    /// three heads are consumed: that of the pair, that of the array and
    /// that of the map. Nothing of it is kept; the slot reads as `Null`.
    pub open spec fn spec_skip_extra(s: Seq<u8>) -> (Result<Term, DecodeError>, Seq<u8>) {
        match spec_array(s) {
            (Err(e), rest) => (Err(e), rest),
            (Ok(_), rest) => match spec_array(rest) {
                (Err(e), rest) => (Err(e), rest),
                (Ok(_), rest) => match spec_map(rest) {
                    (Err(e), rest) => (Err(e), rest),
                    (Ok(_), rest) => (Ok(Term::Null), rest),
                },
            },
        }
    }

    /// A block on the wire: the head of an array of exactly three elements,
    /// the header, the body, and the extra slot, which is skipped.
    pub open spec fn spec_deserialize_fields(s: Seq<u8>) -> (
        Result<BlockModel, DecodeError>,
        Seq<u8>,
    ) {
        match spec_tuple(s, 3) {
            (Err(e), rest) => (Err(e), rest),
            (Ok(_), rest) => match embed_read(
                BlockHeader::spec_deserialize(rest),
                Context::In(Field::Header),
            ) {
                (Err(e), rest) => (Err(e), rest),
                (Ok(header), rest) => match embed_read(
                    Body::spec_deserialize(rest),
                    Context::In(Field::Body),
                ) {
                    (Err(e), rest) => (Err(e), rest),
                    (Ok(body), rest) => match embed_read(
                        Self::spec_skip_extra(rest),
                        Context::In(Field::Extra),
                    ) {
                        (Err(e), rest) => (Err(e), rest),
                        (Ok(extra), rest) => (Ok(BlockModel { header, body, extra }), rest),
                    },
                },
            },
        }
    }

    /// What reading a block from the front of `s` gives, and the bytes left.
    pub open spec fn spec_deserialize(s: Seq<u8>) -> (Result<BlockModel, DecodeError>, Seq<u8>) {
        embed_read(Self::spec_deserialize_fields(s), Context::Decoding(Entity::Block))
    }

    /// Encodes a block as a value tree.
    pub fn encode(&self) -> (r: Value)
        ensures
            r@ == Self::spec_encode(self@),
    {
        let mut items: Vec<Value> = Vec::new();
        items.push(self.header.encode());
        items.push(self.body.encode());
        items.push(self.extra.duplicate());
        assert(models(items@) =~= seq![
            BlockHeader::spec_encode(self@.header),
            Body::spec_encode(self@.body),
            self@.extra,
        ]);
        Value::Array(items)
    }

    fn decode_fields(value: Value) -> (r: Result<Block, DecodeError>)
        ensures
            match Self::spec_decode_fields(value@) {
                Ok(block) => r matches Ok(b) && b@ == block && b.wf(),
                Err(e) => r == Err::<Block, DecodeError>(e),
            },
    {
        let mut items = match value.array() {
            Ok(items) => items,
            Err(e) => {
                return Err(e);
            },
        };
        let ghost all = models(items@);
        let header = match take_first(&mut items) {
            Ok(v) => BlockHeader::decode(v),
            Err(e) => Err(e),
        };
        let header = match header {
            Ok(v) => v,
            Err(e) => {
                return Err(e.embed(Context::In(Field::Header)));
            },
        };
        let body = match take_first(&mut items) {
            Ok(v) => Body::decode(v),
            Err(e) => Err(e),
        };
        let body = match body {
            Ok(v) => v,
            Err(e) => {
                return Err(e.embed(Context::In(Field::Body)));
            },
        };
        let extra = match take_first(&mut items) {
            Ok(v) => v,
            Err(e) => {
                return Err(e.embed(Context::In(Field::Extra)));
            },
        };
        assert(models(items@) =~= all.skip(3));
        if items.len() != 0 {
            return Err(DecodeError::TrailingData);
        }
        Ok(Block { header: header, body: body, extra: extra })
    }

    /// Decodes a block from a value tree. The decode is all or nothing: a
    /// failure gives no part of it.
    pub fn decode(value: Value) -> (r: Result<Block, DecodeError>)
        ensures
            match Self::spec_decode(value@) {
                Ok(block) => r matches Ok(b) && b@ == block && b.wf(),
                Err(e) => r == Err::<Block, DecodeError>(e),
            },
    {
        match Self::decode_fields(value) {
            Ok(block) => Ok(block),
            Err(e) => Err(e.embed(Context::Decoding(Entity::Block))),
        }
    }

    fn skip_extra(raw: &mut RawCbor) -> (r: Result<Value, DecodeError>)
        ensures
            match Self::spec_skip_extra(unread(*old(raw))).0 {
                Ok(t) => r matches Ok(v) && v@ == t,
                Err(e) => r == Err::<Value, DecodeError>(e),
            },
            unread(*final(raw)) == Self::spec_skip_extra(unread(*old(raw))).1,
    {
        match array(raw) {
            Ok(_) => {},
            Err(e) => {
                return Err(e);
            },
        }
        match array(raw) {
            Ok(_) => {},
            Err(e) => {
                return Err(e);
            },
        }
        match crate::stream::map(raw) {
            Ok(_) => {},
            Err(e) => {
                return Err(e);
            },
        }
        Ok(Value::Null)
    }

    fn deserialize_fields(raw: &mut RawCbor) -> (r: Result<Block, DecodeError>)
        ensures
            match Self::spec_deserialize_fields(unread(*old(raw))).0 {
                Ok(block) => r matches Ok(b) && b@ == block && b.wf(),
                Err(e) => r == Err::<Block, DecodeError>(e),
            },
            unread(*final(raw)) == Self::spec_deserialize_fields(unread(*old(raw))).1,
    {
        match tuple(raw, 3) {
            Ok(_) => {},
            Err(e) => {
                return Err(e);
            },
        }
        let header = match BlockHeader::deserialize(raw) {
            Ok(v) => v,
            Err(e) => {
                return Err(e.embed(Context::In(Field::Header)));
            },
        };
        let body = match Body::deserialize(raw) {
            Ok(v) => v,
            Err(e) => {
                return Err(e.embed(Context::In(Field::Body)));
            },
        };
        let extra = match Self::skip_extra(raw) {
            Ok(v) => v,
            Err(e) => {
                return Err(e.embed(Context::In(Field::Extra)));
            },
        };
        Ok(Block { header, body, extra })
    }

    /// Reads a block from the cursor. On failure the cursor stays where the
    /// failing read left it.
    pub fn deserialize(raw: &mut RawCbor) -> (r: Result<Block, DecodeError>)
        ensures
            match Self::spec_deserialize(unread(*old(raw))).0 {
                Ok(block) => r matches Ok(b) && b@ == block && b.wf(),
                Err(e) => r == Err::<Block, DecodeError>(e),
            },
            unread(*final(raw)) == Self::spec_deserialize(unread(*old(raw))).1,
    {
        match Self::deserialize_fields(raw) {
            Ok(block) => Ok(block),
            Err(e) => Err(e.embed(Context::Decoding(Entity::Block))),
        }
    }

    /// Decodes a block from bytes that hold it and nothing more.
    pub fn from_bytes(bytes: &[u8]) -> (r: Result<Block, DecodeError>)
        ensures
            match spec_complete(Self::spec_deserialize(bytes@)) {
                Ok(block) => r matches Ok(v) && v@ == block && v.wf(),
                Err(e) => r == Err::<Block, DecodeError>(e),
            },
    {
        let mut raw = cursor_over(bytes);
        match Self::deserialize(&mut raw) {
            Ok(v) => {
                if at_end(&raw) {
                    Ok(v)
                } else {
                    Err(DecodeError::TrailingData)
                }
            },
            Err(e) => Err(e),
        }
    }
}

} // verus!
