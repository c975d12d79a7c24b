//! What holds of the genesis block codec as a whole: decoding undoes
//! encoding, the body decoder returns what was written in the order in which
//! it was written, a wrong arity is reported as such, every failure names
//! the entity it arose in, and the two ways of decoding agree.

use crate::error::{Context, DecodeError, Entity, Mismatch};
use crate::genesis::{
    spec_decode_leaders, spec_leaders, Block, BlockHeader, BlockModel, Body, BodyProof, Consensus,
    HeaderModel,
};
use crate::parse::{
    lemma_items_consume, lemma_value_consumes, spec_items, spec_open_items, spec_value,
    starts_with_break,
};
use crate::stream::{spec_array, spec_byte_string, spec_cbor_type, spec_unsigned_integer};
use crate::types::{is_mapping, Blake2b256, ChainDifficulty, ProtocolMagic, StakeholderId};
use crate::value::Term;
use crate::wire::{big_endian, Len, Major};
use vstd::prelude::*;

verus! {

/// Decoding the encoding of a network magic gives the magic back.
pub proof fn lemma_protocol_magic_round_trip(magic: ProtocolMagic)
    ensures
        ProtocolMagic::spec_decode(magic.spec_encode()) == Ok::<ProtocolMagic, DecodeError>(magic),
{
}

/// Decoding the encoding of a chain difficulty gives the difficulty back.
pub proof fn lemma_chain_difficulty_round_trip(difficulty: ChainDifficulty)
    ensures
        ChainDifficulty::spec_decode(difficulty.spec_encode()) == Ok::<
            ChainDifficulty,
            DecodeError,
        >(difficulty),
{
}

/// Decoding the encoding of a 32-byte digest gives the digest back; so for
/// a body proof.
pub proof fn lemma_digest_round_trip(digest: Seq<u8>)
    requires
        digest.len() == 32,
    ensures
        Blake2b256::spec_decode(Blake2b256::spec_encode(digest)) == Ok::<Seq<u8>, DecodeError>(
            digest,
        ),
        BodyProof::spec_decode(BodyProof::spec_encode(digest)) == Ok::<Seq<u8>, DecodeError>(
            digest,
        ),
{
}

/// Decoding the encoding of a consensus record gives the record back.
pub proof fn lemma_consensus_round_trip(consensus: Consensus)
    ensures
        Consensus::spec_decode(consensus.spec_encode()) == Ok::<Consensus, DecodeError>(consensus),
{
}

/// Decoding the encoding of a well-formed block header gives the header
/// back.
pub proof fn lemma_block_header_round_trip(header: HeaderModel)
    requires
        header.wf(),
    ensures
        BlockHeader::spec_decode(BlockHeader::spec_encode(header)) == Ok::<
            HeaderModel,
            DecodeError,
        >(header),
{
}

/// Decoding the encoding of a sequence of well-formed stakeholder
/// identifiers gives the identifiers back, in order.
pub proof fn lemma_leaders_round_trip(leaders: Seq<Seq<u8>>)
    requires
        forall|i: int| 0 <= i < leaders.len() ==> (#[trigger] leaders[i]).len() == 28,
    ensures
        spec_decode_leaders(Body::spec_encode(leaders)->IArray_0) == Ok::<
            Seq<Seq<u8>>,
            DecodeError,
        >(leaders),
    decreases leaders.len(),
{
    let items = Body::spec_encode(leaders)->IArray_0;
    if leaders.len() > 0 {
        let later = leaders.skip(1);
        assert(items.skip(1) =~= Body::spec_encode(later)->IArray_0);
        lemma_leaders_round_trip(later);
        assert(seq![leaders[0]] + later =~= leaders);
    } else {
        assert(leaders =~= Seq::empty());
    }
}

/// Decoding the encoding of a well-formed body gives the body back.
pub proof fn lemma_body_round_trip(leaders: Seq<Seq<u8>>)
    requires
        forall|i: int| 0 <= i < leaders.len() ==> (#[trigger] leaders[i]).len() == 28,
    ensures
        Body::spec_decode(Body::spec_encode(leaders)) == Ok::<Seq<Seq<u8>>, DecodeError>(leaders),
{
    lemma_leaders_round_trip(leaders);
}

/// Decoding the encoding of a well-formed block gives the block back.
pub proof fn lemma_block_round_trip(block: BlockModel)
    requires
        block.header.wf(),
        forall|i: int| 0 <= i < block.body.len() ==> (#[trigger] block.body[i]).len() == 28,
    ensures
        Block::spec_decode(Block::spec_encode(block)) == Ok::<BlockModel, DecodeError>(block),
{
    lemma_body_round_trip(block.body);
}

/// A stakeholder identifier on the wire: a byte string of 28 bytes, with
/// its length in one byte after the head.
pub open spec fn wire_id(id: Seq<u8>) -> Seq<u8> {
    seq![0x58u8, 0x1cu8] + id
}

/// Stakeholder identifiers on the wire, one after the other.
pub open spec fn wire_ids(ids: Seq<Seq<u8>>) -> Seq<u8>
    decreases ids.len(),
{
    if ids.len() == 0 {
        Seq::empty()
    } else {
        wire_id(ids[0]) + wire_ids(ids.skip(1))
    }
}

/// The head of an array of indefinite length.
pub open spec fn wire_open_array() -> Seq<u8> {
    seq![0x9fu8]
}

/// The break that ends a sequence of indefinite length.
pub open spec fn wire_break() -> Seq<u8> {
    seq![0xffu8]
}

/// A well-formed identifier on the wire reads back as itself, and what
/// follows it is left.
pub proof fn lemma_id_on_wire(id: Seq<u8>, rest: Seq<u8>)
    requires
        id.len() == 28,
    ensures
        StakeholderId::spec_deserialize(wire_id(id) + rest) == (
            Ok::<Seq<u8>, DecodeError>(id),
            rest,
        ),
{
    let s = wire_id(id) + rest;
    assert(s.subrange(1, 2) =~= seq![0x1cu8]);
    assert(big_endian(seq![0x1cu8]) == 28) by {
        reveal_with_fuel(big_endian, 2);
    }
    assert(s.subrange(2, 30) =~= id);
}

/// Slot leaders followed by a break read back as they were written, in
/// order, and what follows the break is left.
pub proof fn lemma_leaders_on_wire(ids: Seq<Seq<u8>>, tail: Seq<u8>)
    requires
        forall|i: int| 0 <= i < ids.len() ==> (#[trigger] ids[i]).len() == 28,
    ensures
        spec_leaders(wire_ids(ids) + wire_break() + tail) == (
            Ok::<Seq<Seq<u8>>, DecodeError>(ids),
            tail,
        ),
    decreases ids.len(),
{
    let s = wire_ids(ids) + wire_break() + tail;
    if ids.len() == 0 {
        assert(ids =~= Seq::empty());
    } else {
        let later = ids.skip(1);
        let rest = wire_ids(later) + wire_break() + tail;
        assert(s =~= wire_id(ids[0]) + rest);
        lemma_id_on_wire(ids[0], rest);
        lemma_leaders_on_wire(later, tail);
        assert(seq![ids[0]] + later =~= ids);
    }
}

/// Slot leaders that are not followed by a break are a truncation, however
/// many there are.
pub proof fn lemma_leaders_without_break(ids: Seq<Seq<u8>>)
    requires
        forall|i: int| 0 <= i < ids.len() ==> (#[trigger] ids[i]).len() == 28,
    ensures
        spec_leaders(wire_ids(ids)).0 == Err::<Seq<Seq<u8>>, DecodeError>(DecodeError::Truncated),
    decreases ids.len(),
{
    if ids.len() > 0 {
        let later = ids.skip(1);
        lemma_id_on_wire(ids[0], wire_ids(later));
        lemma_leaders_without_break(later);
    }
}

/// A body of any number of well-formed stakeholder identifiers, written as
/// an array of indefinite length and ended by a break, decodes to those
/// identifiers in the order in which they were written; what follows the
/// break is left unread.
pub proof fn lemma_body_on_wire(ids: Seq<Seq<u8>>, tail: Seq<u8>)
    requires
        forall|i: int| 0 <= i < ids.len() ==> (#[trigger] ids[i]).len() == 28,
    ensures
        Body::spec_deserialize(wire_open_array() + wire_ids(ids) + wire_break() + tail) == (
            Ok::<Seq<Seq<u8>>, DecodeError>(ids),
            tail,
        ),
        Body::spec_deserialize(wire_open_array() + wire_ids(ids) + wire_break() + tail).0->Ok_0.len()
            == ids.len(),
{
    let s = wire_open_array() + wire_ids(ids) + wire_break() + tail;
    assert(s.skip(1) =~= wire_ids(ids) + wire_break() + tail);
    lemma_leaders_on_wire(ids, tail);
}

/// The same body without its break fails: the input ends before the
/// terminator.
pub proof fn lemma_body_without_break(ids: Seq<Seq<u8>>)
    requires
        forall|i: int| 0 <= i < ids.len() ==> (#[trigger] ids[i]).len() == 28,
    ensures
        Body::spec_deserialize(wire_open_array() + wire_ids(ids)).0 == Err::<
            Seq<Seq<u8>>,
            DecodeError,
        >(
            DecodeError::Embedded(
                Context::Decoding(Entity::Body),
                Box::new(DecodeError::Truncated),
            ),
        ),
{
    let s = wire_open_array() + wire_ids(ids);
    assert(s.skip(1) =~= wire_ids(ids));
    lemma_leaders_without_break(ids);
}

/// An array whose declared length is not two fails to decode as a
/// consensus record, with a structural mismatch that gives both lengths and
/// names the record.
pub proof fn lemma_consensus_wrong_arity(s: Seq<u8>, len: Len)
    requires
        spec_array(s).0 == Ok::<Len, DecodeError>(len),
        len != Len::Len(2),
    ensures
        Consensus::spec_deserialize(s).0 == Err::<Consensus, DecodeError>(
            DecodeError::Embedded(
                Context::Decoding(Entity::Consensus),
                Box::new(
                    DecodeError::StructuralMismatch(
                        Mismatch::WrongArity { expected: Len::Len(2), found: len },
                    ),
                ),
            ),
        ),
        Consensus::spec_deserialize(s).0->Err_0.spec_path().contains(
            Context::Decoding(Entity::Consensus),
        ),
        Consensus::spec_deserialize(s).0->Err_0.spec_cause() is StructuralMismatch,
{
    let e = Consensus::spec_deserialize(s).0->Err_0;
    reveal_with_fuel(DecodeError::spec_cause, 2);
    assert(e.spec_path()[0] == Context::Decoding(Entity::Consensus));
}

/// Where a value read from bytes is the single unsigned integer `v`, the
/// bytes start with that integer.
pub proof fn lemma_value_is_unsigned(s: Seq<u8>)
    requires
        spec_value(s).0 matches Ok(t) && t is U64,
    ensures
        spec_unsigned_integer(s) == (
            Ok::<u64, DecodeError>(spec_value(s).0->Ok_0->U64_0),
            spec_value(s).1,
        ),
{
}

/// Where a value read from bytes is a byte string, the bytes start with that
/// byte string.
pub proof fn lemma_value_is_bytes(s: Seq<u8>)
    requires
        spec_value(s).0 matches Ok(t) && t is Bytes,
    ensures
        spec_byte_string(s) == (
            Ok::<Seq<u8>, DecodeError>(spec_value(s).0->Ok_0->Bytes_0),
            spec_value(s).1,
        ),
{
}

/// Where a value read from bytes is a mapping, the bytes start with an item
/// of the map type.
pub proof fn lemma_value_is_mapping(s: Seq<u8>)
    requires
        spec_value(s).0 matches Ok(t) && is_mapping(t),
    ensures
        spec_cbor_type(s) == Ok::<Major, DecodeError>(Major::Object),
{
}

/// Where a value read from bytes is an open sequence, the bytes start with
/// the head of an array of indefinite length, and the elements and the
/// break follow.
pub proof fn lemma_value_is_open_array(s: Seq<u8>)
    requires
        spec_value(s).0 matches Ok(t) && t is IArray,
    ensures
        spec_array(s).0 == Ok::<Len, DecodeError>(Len::Indefinite),
        spec_open_items(spec_array(s).1) == (
            Ok::<Seq<Term>, DecodeError>(spec_value(s).0->Ok_0->IArray_0),
            spec_value(s).1,
        ),
{
}

/// Where a value read from bytes is a definite sequence, the bytes start
/// with the head of an array of as many elements, and the elements follow.
pub proof fn lemma_value_is_array(s: Seq<u8>)
    requires
        spec_value(s).0 matches Ok(t) && t is Array,
    ensures
        spec_array(s).0 == Ok::<Len, DecodeError>(
            Len::Len(spec_value(s).0->Ok_0->Array_0.len() as u64),
        ),
        spec_items(spec_array(s).1, spec_value(s).0->Ok_0->Array_0.len()) == (
            Ok::<Seq<Term>, DecodeError>(spec_value(s).0->Ok_0->Array_0),
            spec_value(s).1,
        ),
{
    match spec_array(s) {
        (Ok(Len::Len(n)), rest) => {
            lemma_items_consume(rest, n as nat);
        },
        _ => {},
    }
}

/// The first of a number of values read from bytes is the value at the
/// front; the others are read from what it leaves.
pub proof fn lemma_items_unfold(s: Seq<u8>, n: nat)
    requires
        n > 0,
        spec_items(s, n).0 is Ok,
    ensures
        spec_value(s).0 == Ok::<Term, DecodeError>(spec_items(s, n).0->Ok_0[0]),
        spec_items(spec_value(s).1, (n - 1) as nat) == (
            Ok::<Seq<Term>, DecodeError>(spec_items(s, n).0->Ok_0.skip(1)),
            spec_items(s, n).1,
        ),
{
    lemma_value_consumes(s);
    let first = spec_value(s).0->Ok_0;
    let more = spec_items(spec_value(s).1, (n - 1) as nat).0->Ok_0;
    assert((seq![first] + more).skip(1) =~= more);
}

/// Reading a consensus record from bytes directly agrees with reading a
/// value tree from the same bytes and decoding it: where the second way
/// gives a record, the first gives the same record and leaves the same
/// bytes.
pub proof fn lemma_consensus_paths_agree(s: Seq<u8>)
    requires
        spec_value(s).0 is Ok,
        Consensus::spec_decode(spec_value(s).0->Ok_0) is Ok,
    ensures
        Consensus::spec_deserialize(s) == (
            Consensus::spec_decode(spec_value(s).0->Ok_0),
            spec_value(s).1,
        ),
{
    // The record is an array of two: the epoch, then the difficulty, which
    // is an array of one.
    lemma_value_is_array(s);
    let epoch_at = spec_array(s).1;
    lemma_items_unfold(epoch_at, 2);
    lemma_value_is_unsigned(epoch_at);
    let difficulty_at = spec_value(epoch_at).1;
    lemma_items_unfold(difficulty_at, 1);
    lemma_value_is_array(difficulty_at);
    let count_at = spec_array(difficulty_at).1;
    lemma_items_unfold(count_at, 1);
    lemma_value_is_unsigned(count_at);
}

/// Reading a body proof from bytes directly agrees with reading a value
/// tree from the same bytes and decoding it.
pub proof fn lemma_body_proof_paths_agree(s: Seq<u8>)
    requires
        spec_value(s).0 is Ok,
        BodyProof::spec_decode(spec_value(s).0->Ok_0) is Ok,
    ensures
        BodyProof::spec_deserialize(s) == (
            BodyProof::spec_decode(spec_value(s).0->Ok_0),
            spec_value(s).1,
        ),
{
    lemma_value_is_bytes(s);
}

/// Where the values read up to a break decode as slot leaders, reading the
/// slot leaders directly gives the same leaders and leaves the same bytes.
pub proof fn lemma_leaders_paths_agree(s: Seq<u8>)
    requires
        spec_open_items(s).0 is Ok,
        spec_decode_leaders(spec_open_items(s).0->Ok_0) is Ok,
    ensures
        spec_leaders(s) == (spec_decode_leaders(spec_open_items(s).0->Ok_0), spec_open_items(s).1),
    decreases s.len(),
{
    if !starts_with_break(s) {
        lemma_value_consumes(s);
        lemma_value_is_bytes(s);
        let rest = spec_value(s).1;
        let items = spec_open_items(s).0->Ok_0;
        assert(items.skip(1) =~= spec_open_items(rest).0->Ok_0);
        lemma_leaders_paths_agree(rest);
    }
}

/// Reading a body from bytes directly agrees with reading a value tree from
/// the same bytes and decoding it.
pub proof fn lemma_body_paths_agree(s: Seq<u8>)
    requires
        spec_value(s).0 is Ok,
        Body::spec_decode(spec_value(s).0->Ok_0) is Ok,
    ensures
        Body::spec_deserialize(s) == (Body::spec_decode(spec_value(s).0->Ok_0), spec_value(s).1),
{
    lemma_value_is_open_array(s);
    lemma_leaders_paths_agree(spec_array(s).1);
}

/// Reading a block header from bytes directly agrees with reading a value
/// tree from the same bytes and decoding it: where the second way gives a
/// header, the first gives the same header and leaves the same bytes.
pub proof fn lemma_block_header_paths_agree(s: Seq<u8>)
    requires
        spec_value(s).0 is Ok,
        BlockHeader::spec_decode(spec_value(s).0->Ok_0) is Ok,
    ensures
        BlockHeader::spec_deserialize(s) == (
            BlockHeader::spec_decode(spec_value(s).0->Ok_0),
            spec_value(s).1,
        ),
{
    // The header is an array of five; each field is read where the one
    // before it ended.
    lemma_value_is_array(s);
    let magic_at = spec_array(s).1;
    lemma_items_unfold(magic_at, 5);
    lemma_value_is_unsigned(magic_at);
    let previous_at = spec_value(magic_at).1;
    lemma_items_unfold(previous_at, 4);
    lemma_value_is_bytes(previous_at);
    let proof_at = spec_value(previous_at).1;
    lemma_items_unfold(proof_at, 3);
    lemma_value_is_bytes(proof_at);
    let consensus_at = spec_value(proof_at).1;
    lemma_items_unfold(consensus_at, 2);
    lemma_consensus_paths_agree(consensus_at);
    let attributes_at = spec_value(consensus_at).1;
    lemma_items_unfold(attributes_at, 1);
    lemma_value_is_mapping(attributes_at);
}

/// Whether a failure is wrapped, outermost, in the decoding of `entity`.
pub open spec fn names_first(e: DecodeError, entity: Entity) -> bool {
    e.spec_path().len() > 0 && e.spec_path()[0] == Context::Decoding(entity)
}

/// Every failure to decode an entity, from a value tree or from bytes, names
/// that entity as the outermost place of the fault.
pub proof fn lemma_failures_name_the_entity(t: Term, s: Seq<u8>)
    ensures
        BodyProof::spec_decode(t) matches Err(e) ==> names_first(e, Entity::BodyProof),
        BodyProof::spec_deserialize(s).0 matches Err(e) ==> names_first(e, Entity::BodyProof),
        Body::spec_decode(t) matches Err(e) ==> names_first(e, Entity::Body),
        Body::spec_deserialize(s).0 matches Err(e) ==> names_first(e, Entity::Body),
        Consensus::spec_decode(t) matches Err(e) ==> names_first(e, Entity::Consensus),
        Consensus::spec_deserialize(s).0 matches Err(e) ==> names_first(e, Entity::Consensus),
        BlockHeader::spec_decode(t) matches Err(e) ==> names_first(e, Entity::BlockHeader),
        BlockHeader::spec_deserialize(s).0 matches Err(e) ==> names_first(e, Entity::BlockHeader),
        Block::spec_decode(t) matches Err(e) ==> names_first(e, Entity::Block),
        Block::spec_deserialize(s).0 matches Err(e) ==> names_first(e, Entity::Block),
{
}

} // verus!
