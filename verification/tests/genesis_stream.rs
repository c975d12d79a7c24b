use cbor_event::de::RawCbor;
use chain_genesis::error::{Context, DecodeError, Entity, Field, Mismatch};
use chain_genesis::genesis::{Block, BlockHeader, Body, BodyProof, Consensus};
use chain_genesis::stream;
use chain_genesis::types::{
    Blake2b256, BlockHeaderAttributes, ChainDifficulty, ProtocolMagic, StakeholderId,
};
use chain_genesis::value::Value;
use chain_genesis::wire::{Len, Major, Special};

fn within(contexts: &[Context], cause: DecodeError) -> DecodeError {
    let mut e = cause;
    for c in contexts.iter().rev() {
        e = DecodeError::Embedded(*c, Box::new(e));
    }
    e
}

fn id_bytes(fill: u8) -> Vec<u8> {
    let mut v = vec![0x58, 0x1c];
    v.extend(std::iter::repeat(fill).take(28));
    v
}

fn hash_bytes(fill: u8) -> Vec<u8> {
    let mut v = vec![0x58, 0x20];
    v.extend(std::iter::repeat(fill).take(32));
    v
}

fn header_bytes() -> Vec<u8> {
    let mut v = vec![0x85, 0x1a, 0x2d, 0x96, 0x4a, 0x09];
    v.extend(hash_bytes(0x11));
    v.extend(hash_bytes(0x22));
    v.extend([0x82, 0x05, 0x81, 0x18, 0x2a]);
    v.push(0xa0);
    v
}

fn block_bytes() -> Vec<u8> {
    let mut v = vec![0x83];
    v.extend(header_bytes());
    v.extend([0x9f, 0xff]);
    v.extend([0x82, 0x80, 0xa0]);
    v
}

#[test]
fn end_to_end_block_with_empty_body() {
    let bytes = block_bytes();
    let block = Block::from_bytes(&bytes).unwrap();
    assert_eq!(block.body.slot_leaders.len(), 0);
    assert_eq!(block.header.protocol_magic, ProtocolMagic(764824073));
    assert_eq!(block.header.consensus.epoch, 5);
    assert_eq!(block.header.consensus.chain_difficulty, ChainDifficulty(42));
    assert_eq!(block.header.previous_header.to_vec(), vec![0x11; 32]);
    assert_eq!(block.header.body_proof.0.to_vec(), vec![0x22; 32]);
    assert_eq!(block.header.extra_data, BlockHeaderAttributes(Value::Object(vec![])));
    assert_eq!(block.extra, Value::Null);
}

#[test]
fn block_deserialize_consumes_exactly_the_block() {
    let mut bytes = block_bytes();
    bytes.extend([0x01, 0x02]);
    let mut raw = RawCbor::from(&bytes);
    let block = Block::deserialize(&mut raw).unwrap();
    assert_eq!(block.body.slot_leaders.len(), 0);
    assert_eq!(raw.as_ref(), &[0x01, 0x02][..]);
    assert_eq!(Block::from_bytes(&bytes), Err(DecodeError::TrailingData));
}

#[test]
fn block_with_wrong_arity() {
    let mut bytes = vec![0x82];
    bytes.extend(header_bytes());
    bytes.extend([0x9f, 0xff]);
    assert_eq!(
        Block::from_bytes(&bytes),
        Err(within(
            &[Context::Decoding(Entity::Block)],
            DecodeError::StructuralMismatch(Mismatch::WrongArity {
                expected: Len::Len(3),
                found: Len::Len(2)
            })
        ))
    );
}

#[test]
fn block_extra_must_have_array_and_map_heads() {
    let mut bytes = vec![0x83];
    bytes.extend(header_bytes());
    bytes.extend([0x9f, 0xff]);
    bytes.extend([0x82, 0x80, 0x80]);
    assert_eq!(
        Block::from_bytes(&bytes),
        Err(within(
            &[Context::Decoding(Entity::Block), Context::In(Field::Extra)],
            DecodeError::StructuralMismatch(Mismatch::WrongType {
                expected: Major::Object,
                found: Major::Array
            })
        ))
    );
}

#[test]
fn block_failure_names_the_path_to_the_fault() {
    let mut bytes = vec![0x83, 0x85, 0x61, 0x61];
    bytes.extend(hash_bytes(0x11));
    let err = Block::from_bytes(&bytes).unwrap_err();
    assert_eq!(
        err,
        within(
            &[
                Context::Decoding(Entity::Block),
                Context::In(Field::Header),
                Context::Decoding(Entity::BlockHeader),
                Context::In(Field::ProtocolMagic),
            ],
            DecodeError::StructuralMismatch(Mismatch::WrongType {
                expected: Major::UnsignedInteger,
                found: Major::Text
            })
        )
    );
    assert_eq!(
        err.path(),
        vec![
            Context::Decoding(Entity::Block),
            Context::In(Field::Header),
            Context::Decoding(Entity::BlockHeader),
            Context::In(Field::ProtocolMagic),
        ]
    );
    assert!(err.names(Entity::Block));
    assert!(err.names(Entity::BlockHeader));
    assert!(!err.names(Entity::Consensus));
}

#[test]
fn body_of_three_leaders_in_order() {
    let mut bytes = vec![0x9f];
    bytes.extend(id_bytes(1));
    bytes.extend(id_bytes(2));
    bytes.extend(id_bytes(3));
    bytes.push(0xff);
    let body = Body::from_bytes(&bytes).unwrap();
    assert_eq!(body.slot_leaders.len(), 3);
    assert_eq!(body.slot_leaders[0].to_vec(), vec![1u8; 28]);
    assert_eq!(body.slot_leaders[1].to_vec(), vec![2u8; 28]);
    assert_eq!(body.slot_leaders[2].to_vec(), vec![3u8; 28]);
}

#[test]
fn body_of_many_leaders() {
    let mut bytes = vec![0x9f];
    for i in 0..200u8 {
        bytes.extend(id_bytes(i));
    }
    bytes.push(0xff);
    bytes.push(0x00);
    let mut raw = RawCbor::from(&bytes);
    let body = Body::deserialize(&mut raw).unwrap();
    assert_eq!(body.slot_leaders.len(), 200);
    for i in 0..200u8 {
        assert_eq!(body.slot_leaders[i as usize].to_vec(), vec![i; 28]);
    }
    assert_eq!(raw.as_ref(), &[0x00][..]);
}

#[test]
fn body_without_break_is_truncated() {
    let mut bytes = vec![0x9f];
    bytes.extend(id_bytes(1));
    bytes.extend(id_bytes(2));
    assert_eq!(
        Body::from_bytes(&bytes),
        Err(within(&[Context::Decoding(Entity::Body)], DecodeError::Truncated))
    );
    assert_eq!(
        Body::from_bytes(&[0x9f]),
        Err(within(&[Context::Decoding(Entity::Body)], DecodeError::Truncated))
    );
    assert_eq!(
        Body::from_bytes(&[]),
        Err(within(&[Context::Decoding(Entity::Body)], DecodeError::Truncated))
    );
}

#[test]
fn body_with_leader_cut_short_is_truncated() {
    let mut bytes = vec![0x9f];
    bytes.extend(id_bytes(1));
    bytes.extend([0x58, 0x1c, 0x01, 0x02]);
    let mut raw = RawCbor::from(&bytes);
    assert_eq!(
        Body::deserialize(&mut raw),
        Err(within(&[Context::Decoding(Entity::Body)], DecodeError::Truncated))
    );
    assert_eq!(raw.as_ref(), &[0x58, 0x1c, 0x01, 0x02][..]);
}

#[test]
fn body_with_definite_length_is_a_mismatch() {
    let mut bytes = vec![0x81];
    bytes.extend(id_bytes(1));
    assert_eq!(
        Body::from_bytes(&bytes),
        Err(within(
            &[Context::Decoding(Entity::Body)],
            DecodeError::StructuralMismatch(Mismatch::WrongArity {
                expected: Len::Indefinite,
                found: Len::Len(1)
            })
        ))
    );
}

#[test]
fn body_with_special_that_is_no_break() {
    let mut bytes = vec![0x9f];
    bytes.extend(id_bytes(1));
    bytes.push(0xf6);
    bytes.push(0xff);
    assert_eq!(
        Body::from_bytes(&bytes),
        Err(within(&[Context::Decoding(Entity::Body)], DecodeError::UnexpectedToken(Special::Null)))
    );
    assert_eq!(
        Body::from_bytes(&[0x9f, 0xf5, 0xff]),
        Err(within(
            &[Context::Decoding(Entity::Body)],
            DecodeError::UnexpectedToken(Special::Bool(true))
        ))
    );
}

#[test]
fn body_with_leader_of_wrong_size() {
    let mut bytes = vec![0x9f, 0x42, 0x01, 0x02, 0xff];
    assert_eq!(
        Body::from_bytes(&bytes),
        Err(within(
            &[Context::Decoding(Entity::Body)],
            DecodeError::StructuralMismatch(Mismatch::WrongSize { expected: 28, found: 2 })
        ))
    );
    bytes[1] = 0x01;
    assert_eq!(
        Body::from_bytes(&bytes),
        Err(within(
            &[Context::Decoding(Entity::Body)],
            DecodeError::StructuralMismatch(Mismatch::WrongType {
                expected: Major::Bytes,
                found: Major::UnsignedInteger
            })
        ))
    );
}

#[test]
fn consensus_of_two_fields() {
    assert_eq!(
        Consensus::from_bytes(&[0x82, 0x05, 0x81, 0x18, 0x2a]),
        Ok(Consensus { epoch: 5, chain_difficulty: ChainDifficulty(42) })
    );
    assert_eq!(
        Consensus::from_bytes(&[
            0x82, 0x1a, 0x01, 0x02, 0x03, 0x04, 0x81, 0x1b, 0x01, 0x02, 0x03, 0x04, 0x05, 0x06,
            0x07, 0x08
        ]),
        Ok(Consensus { epoch: 0x01020304, chain_difficulty: ChainDifficulty(0x0102030405060708) })
    );
    assert_eq!(
        Consensus::from_bytes(&[0x82, 0x19, 0x01, 0x02, 0x81, 0x17]),
        Ok(Consensus { epoch: 0x0102, chain_difficulty: ChainDifficulty(23) })
    );
}

#[test]
fn consensus_epoch_keeps_the_low_32_bits() {
    assert_eq!(
        Consensus::from_bytes(&[
            0x82, 0x1b, 0x00, 0x00, 0x00, 0x07, 0x00, 0x00, 0x00, 0x09, 0x81, 0x00
        ]),
        Ok(Consensus { epoch: 9, chain_difficulty: ChainDifficulty(0) })
    );
}

#[test]
fn consensus_with_wrong_arity_names_consensus() {
    for (bytes, found) in [
        (vec![0x80u8], Len::Len(0)),
        (vec![0x81, 0x05], Len::Len(1)),
        (vec![0x83, 0x05, 0x81, 0x00, 0x00], Len::Len(3)),
        (vec![0x98, 0x19, 0x05], Len::Len(25)),
        (vec![0x9f, 0x05, 0x81, 0x00, 0xff], Len::Indefinite),
    ] {
        let err = Consensus::from_bytes(&bytes).unwrap_err();
        assert_eq!(
            err,
            within(
                &[Context::Decoding(Entity::Consensus)],
                DecodeError::StructuralMismatch(Mismatch::WrongArity {
                    expected: Len::Len(2),
                    found
                })
            )
        );
        assert!(err.names(Entity::Consensus));
        assert!(matches!(err.cause(), DecodeError::StructuralMismatch(_)));
        assert_eq!(Entity::Consensus.name(), "Consensus");
    }
}

#[test]
fn consensus_that_is_no_array() {
    assert_eq!(
        Consensus::from_bytes(&[0xa2, 0x05, 0x81, 0x00]),
        Err(within(
            &[Context::Decoding(Entity::Consensus)],
            DecodeError::StructuralMismatch(Mismatch::WrongType {
                expected: Major::Array,
                found: Major::Object
            })
        ))
    );
}

#[test]
fn consensus_field_failures_name_the_field() {
    assert_eq!(
        Consensus::from_bytes(&[0x82]),
        Err(within(
            &[Context::Decoding(Entity::Consensus), Context::In(Field::Epoch)],
            DecodeError::Truncated
        ))
    );
    assert_eq!(
        Consensus::from_bytes(&[0x82, 0x05]),
        Err(within(
            &[Context::Decoding(Entity::Consensus), Context::In(Field::ChainDifficulty)],
            DecodeError::Truncated
        ))
    );
    assert_eq!(
        Consensus::from_bytes(&[0x82, 0x05, 0x82, 0x00, 0x00]),
        Err(within(
            &[Context::Decoding(Entity::Consensus), Context::In(Field::ChainDifficulty)],
            DecodeError::StructuralMismatch(Mismatch::WrongArity {
                expected: Len::Len(1),
                found: Len::Len(2)
            })
        ))
    );
    assert_eq!(
        Consensus::from_bytes(&[0x82, 0x1f, 0x81, 0x00]),
        Err(within(
            &[Context::Decoding(Entity::Consensus), Context::In(Field::Epoch)],
            DecodeError::StructuralMismatch(Mismatch::IndefiniteLength)
        ))
    );
    assert_eq!(
        Consensus::from_bytes(&[0x82, 0x1c, 0x81, 0x00]),
        Err(within(
            &[Context::Decoding(Entity::Consensus), Context::In(Field::Epoch)],
            DecodeError::StructuralMismatch(Mismatch::UnknownLenType(0x1c))
        ))
    );
    assert_eq!(
        Consensus::from_bytes(&[0x82, 0x19, 0x01]),
        Err(within(
            &[Context::Decoding(Entity::Consensus), Context::In(Field::Epoch)],
            DecodeError::Truncated
        ))
    );
}

#[test]
fn consensus_with_trailing_bytes() {
    assert_eq!(
        Consensus::from_bytes(&[0x82, 0x05, 0x81, 0x00, 0x00]),
        Err(DecodeError::TrailingData)
    );
    let bytes = [0x82u8, 0x05, 0x81, 0x00, 0x00];
    let mut raw = RawCbor::from(&bytes[..]);
    assert_eq!(
        Consensus::deserialize(&mut raw),
        Ok(Consensus { epoch: 5, chain_difficulty: ChainDifficulty(0) })
    );
    assert_eq!(raw.as_ref(), &[0x00][..]);
}

#[test]
fn header_of_five_fields() {
    let header = BlockHeader::from_bytes(&header_bytes()).unwrap();
    assert_eq!(
        header,
        BlockHeader::new(
            ProtocolMagic::new(764824073),
            Blake2b256::from_slice(&[0x11; 32]).unwrap(),
            BodyProof(Blake2b256::from_slice(&[0x22; 32]).unwrap()),
            Consensus { epoch: 5, chain_difficulty: ChainDifficulty(42) },
            BlockHeaderAttributes(Value::Object(vec![])),
        )
    );
}

#[test]
fn header_of_four_fields_is_a_mismatch() {
    let mut bytes = header_bytes();
    bytes[0] = 0x84;
    assert_eq!(
        BlockHeader::from_bytes(&bytes),
        Err(within(
            &[Context::Decoding(Entity::BlockHeader)],
            DecodeError::StructuralMismatch(Mismatch::WrongArity {
                expected: Len::Len(5),
                found: Len::Len(4)
            })
        ))
    );
}

#[test]
fn header_magic_out_of_range() {
    let mut bytes = vec![0x85, 0x1b, 0x00, 0x00, 0x00, 0x01, 0x00, 0x00, 0x00, 0x00];
    bytes.extend(hash_bytes(0x11));
    assert_eq!(
        BlockHeader::from_bytes(&bytes),
        Err(within(
            &[Context::Decoding(Entity::BlockHeader), Context::In(Field::ProtocolMagic)],
            DecodeError::StructuralMismatch(Mismatch::OutOfRange { found: 0x1_0000_0000 })
        ))
    );
}

#[test]
fn header_digest_of_wrong_size() {
    let mut bytes = vec![0x85, 0x01, 0x43, 0x01, 0x02, 0x03];
    bytes.extend(hash_bytes(0x22));
    assert_eq!(
        BlockHeader::from_bytes(&bytes),
        Err(within(
            &[Context::Decoding(Entity::BlockHeader), Context::In(Field::PreviousHeaderHash)],
            DecodeError::StructuralMismatch(Mismatch::WrongSize { expected: 32, found: 3 })
        ))
    );
    let mut bytes = vec![0x85, 0x01];
    bytes.extend(hash_bytes(0x11));
    bytes.extend([0x5f, 0xff]);
    assert_eq!(
        BlockHeader::from_bytes(&bytes),
        Err(within(
            &[
                Context::Decoding(Entity::BlockHeader),
                Context::In(Field::BodyProof),
                Context::Decoding(Entity::BodyProof),
            ],
            DecodeError::StructuralMismatch(Mismatch::IndefiniteLength)
        ))
    );
}

#[test]
fn header_attributes_are_an_open_map() {
    let mut bytes = header_bytes();
    let last = bytes.len() - 1;
    bytes[last] = 0xa1;
    bytes.extend([0x00, 0x18, 0x2a, 0x09]);
    let mut raw = RawCbor::from(&bytes);
    let header = BlockHeader::deserialize(&mut raw).unwrap();
    assert_eq!(
        header.extra_data,
        BlockHeaderAttributes(Value::Object(vec![(Value::U64(0), Value::U64(42))]))
    );
    assert_eq!(raw.as_ref(), &[0x09][..]);
}

#[test]
fn header_attributes_that_are_no_map() {
    let mut bytes = header_bytes();
    let last = bytes.len() - 1;
    bytes[last] = 0x80;
    let mut raw = RawCbor::from(&bytes);
    assert_eq!(
        BlockHeader::deserialize(&mut raw),
        Err(within(
            &[Context::Decoding(Entity::BlockHeader), Context::In(Field::ExtraData)],
            DecodeError::StructuralMismatch(Mismatch::WrongType {
                expected: Major::Object,
                found: Major::Array
            })
        ))
    );
    assert_eq!(raw.as_ref(), &[0x80][..]);
    bytes.pop();
    assert_eq!(
        BlockHeader::from_bytes(&bytes),
        Err(within(
            &[Context::Decoding(Entity::BlockHeader), Context::In(Field::ExtraData)],
            DecodeError::Truncated
        ))
    );
}

#[test]
fn body_proof_from_bytes() {
    let proof = BodyProof::from_bytes(&hash_bytes(0x33)).unwrap();
    assert_eq!(proof.0.to_vec(), vec![0x33; 32]);
    assert_eq!(
        BodyProof::from_bytes(&[0x41, 0x01]),
        Err(within(
            &[Context::Decoding(Entity::BodyProof)],
            DecodeError::StructuralMismatch(Mismatch::WrongSize { expected: 32, found: 1 })
        ))
    );
    assert_eq!(
        BodyProof::from_bytes(&[0x58, 0x20, 0x01]),
        Err(within(&[Context::Decoding(Entity::BodyProof)], DecodeError::Truncated))
    );
    assert_eq!(
        BodyProof::from_bytes(&[0x58]),
        Err(within(&[Context::Decoding(Entity::BodyProof)], DecodeError::Truncated))
    );
}

#[test]
fn stakeholder_id_from_cursor() {
    let mut bytes = id_bytes(9);
    bytes.push(0x07);
    let mut raw = RawCbor::from(&bytes);
    let id = StakeholderId::deserialize(&mut raw).unwrap();
    assert_eq!(id.to_vec(), vec![9u8; 28]);
    assert_eq!(raw.as_ref(), &[0x07][..]);
    assert_eq!(StakeholderId::from_slice(&[9u8; 28]), Some(id));
    assert_eq!(StakeholderId::from_slice(&[9u8; 27]), None);
}

#[test]
fn stream_reads_single_items() {
    let bytes = [0x98u8, 0x19, 0xbf, 0x18, 0x40, 0xf4, 0x43, 0x01, 0x02, 0x03, 0xf8, 0x21, 0xfb];
    let mut raw = RawCbor::from(&bytes[..]);
    assert_eq!(stream::cbor_type(&raw), Ok(Major::Array));
    assert_eq!(stream::array(&mut raw), Ok(Len::Len(25)));
    assert_eq!(stream::cbor_type(&raw), Ok(Major::Object));
    assert_eq!(stream::map(&mut raw), Ok(Len::Indefinite));
    assert_eq!(stream::unsigned_integer(&mut raw), Ok(64));
    assert_eq!(stream::special(&mut raw), Ok(Special::Bool(false)));
    assert_eq!(stream::bytes(&mut raw), Ok(vec![1, 2, 3]));
    assert_eq!(stream::special(&mut raw), Ok(Special::Unassigned(0x21)));
    assert!(!stream::at_end(&raw));
    assert_eq!(stream::special(&mut raw), Err(DecodeError::Truncated));
    assert_eq!(raw.as_ref(), &[0xfb][..]);
}

#[test]
fn stream_special_items() {
    for (bytes, expected, left) in [
        (vec![0xe0u8, 0x01], Special::Unassigned(0), 1usize),
        (vec![0xf3], Special::Unassigned(19), 0),
        (vec![0xf4], Special::Bool(false), 0),
        (vec![0xf5], Special::Bool(true), 0),
        (vec![0xf6], Special::Null, 0),
        (vec![0xf7], Special::Undefined, 0),
        (vec![0xf9, 0x00, 0x00, 0x09], Special::Float, 1),
        (vec![0xfa, 0, 0, 0, 0], Special::Float, 0),
        (vec![0xfb, 0, 0, 0, 0, 0, 0, 0, 0, 0], Special::Float, 1),
        (vec![0xfc], Special::Unassigned(28), 0),
        (vec![0xff, 0xff], Special::Break, 1),
    ] {
        let mut raw = RawCbor::from(&bytes);
        assert_eq!(stream::special(&mut raw), Ok(expected));
        assert_eq!(raw.len(), left);
    }
    let bytes = [0x01u8];
    let mut raw = RawCbor::from(&bytes[..]);
    assert_eq!(
        stream::special(&mut raw),
        Err(DecodeError::StructuralMismatch(Mismatch::WrongType {
            expected: Major::Special,
            found: Major::UnsignedInteger
        }))
    );
    assert_eq!(raw.len(), 1);
}

#[test]
fn stream_types_of_all_majors() {
    for (byte, major) in [
        (0x00u8, Major::UnsignedInteger),
        (0x1f, Major::UnsignedInteger),
        (0x20, Major::NegativeInteger),
        (0x40, Major::Bytes),
        (0x60, Major::Text),
        (0x80, Major::Array),
        (0xa0, Major::Object),
        (0xc0, Major::Tag),
        (0xe0, Major::Special),
        (0xff, Major::Special),
    ] {
        let bytes = [byte];
        let raw = RawCbor::from(&bytes[..]);
        assert_eq!(stream::cbor_type(&raw), Ok(major));
    }
    let raw = RawCbor::from(&[][..]);
    assert_eq!(stream::cbor_type(&raw), Err(DecodeError::Truncated));
    assert!(stream::at_end(&raw));
}

#[test]
fn stream_tuple_and_unsigned_32() {
    let bytes = [0x82u8, 0x1a, 0xff, 0xff, 0xff, 0xff, 0x1b, 0, 0, 0, 1, 0, 0, 0, 0];
    let mut raw = RawCbor::from(&bytes[..]);
    assert_eq!(stream::tuple(&mut raw, 2), Ok(()));
    assert_eq!(stream::unsigned_32(&mut raw), Ok(0xffff_ffff));
    assert_eq!(
        stream::unsigned_32(&mut raw),
        Err(DecodeError::StructuralMismatch(Mismatch::OutOfRange { found: 0x1_0000_0000 }))
    );
    assert!(stream::at_end(&raw));
    let mut raw = RawCbor::from(&bytes[..]);
    assert_eq!(
        stream::tuple(&mut raw, 3),
        Err(DecodeError::StructuralMismatch(Mismatch::WrongArity {
            expected: Len::Len(3),
            found: Len::Len(2)
        }))
    );
}

#[test]
fn stream_bytes_that_are_not_all_there() {
    let bytes = [0x5bu8, 0xff, 0xff, 0xff, 0xff, 0xff, 0xff, 0xff, 0xff, 0x01];
    let mut raw = RawCbor::from(&bytes[..]);
    assert_eq!(stream::bytes(&mut raw), Err(DecodeError::Truncated));
    assert_eq!(raw.len(), 10);
    let bytes = [0x44u8, 0x01, 0x02, 0x03];
    let mut raw = RawCbor::from(&bytes[..]);
    assert_eq!(stream::bytes(&mut raw), Err(DecodeError::Truncated));
    assert_eq!(raw.len(), 4);
    let bytes = [0x40u8, 0x01];
    let mut raw = RawCbor::from(&bytes[..]);
    assert_eq!(stream::bytes(&mut raw), Ok(vec![]));
    assert_eq!(raw.len(), 1);
    let bytes = [0x5du8, 0x01];
    let mut raw = RawCbor::from(&bytes[..]);
    assert_eq!(
        stream::bytes(&mut raw),
        Err(DecodeError::StructuralMismatch(Mismatch::UnknownLenType(0x1d)))
    );
}
