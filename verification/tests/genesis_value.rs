use chain_genesis::error::{Context, DecodeError, Entity, Field, Mismatch};
use chain_genesis::genesis::{Block, BlockHeader, Body, BodyProof, Consensus};
use chain_genesis::types::{
    Blake2b256, BlockHeaderAttributes, ChainDifficulty, ProtocolMagic, StakeholderId,
};
use chain_genesis::value::{copy_bytes, duplicate_all, duplicate_entries, reversed, take_first, Value};
use chain_genesis::wire::Major;

fn wrapped(contexts: &[Context], cause: DecodeError) -> DecodeError {
    let mut e = cause;
    for c in contexts.iter().rev() {
        e = DecodeError::Embedded(*c, Box::new(e));
    }
    e
}

fn sample_header() -> BlockHeader {
    BlockHeader::new(
        ProtocolMagic::new(764824073),
        Blake2b256::from_slice(&[0xaa; 32]).unwrap(),
        BodyProof(Blake2b256::from_slice(&[0xbb; 32]).unwrap()),
        Consensus { epoch: 7, chain_difficulty: ChainDifficulty(1234567) },
        BlockHeaderAttributes(Value::Object(vec![(Value::U64(1), Value::Text("x".to_string()))])),
    )
}

fn sample_body() -> Body {
    Body {
        slot_leaders: vec![
            StakeholderId::from_slice(&[1; 28]).unwrap(),
            StakeholderId::from_slice(&[2; 28]).unwrap(),
            StakeholderId::from_slice(&[3; 28]).unwrap(),
        ],
    }
}

#[test]
fn consensus_encodes_as_two_fields() {
    let c = Consensus { epoch: 5, chain_difficulty: ChainDifficulty(42) };
    assert_eq!(
        c.encode(),
        Value::Array(vec![Value::U64(5), Value::Array(vec![Value::U64(42)])])
    );
}

#[test]
fn consensus_round_trip() {
    for (epoch, difficulty) in [(0u32, 0u64), (5, 42), (u32::MAX, u64::MAX), (1, 1 << 40)] {
        let c = Consensus { epoch, chain_difficulty: ChainDifficulty(difficulty) };
        assert_eq!(Consensus::decode(c.encode()), Ok(c));
    }
}

#[test]
fn consensus_with_leftover_is_trailing_data() {
    let value = Value::Array(vec![
        Value::U64(5),
        Value::Array(vec![Value::U64(42)]),
        Value::U64(0),
    ]);
    assert_eq!(
        Consensus::decode(value),
        Err(wrapped(&[Context::Decoding(Entity::Consensus)], DecodeError::TrailingData))
    );
}

#[test]
fn consensus_with_missing_field_is_truncated() {
    assert_eq!(
        Consensus::decode(Value::Array(vec![])),
        Err(wrapped(
            &[Context::Decoding(Entity::Consensus), Context::In(Field::Epoch)],
            DecodeError::Truncated
        ))
    );
    assert_eq!(
        Consensus::decode(Value::Array(vec![Value::U64(5)])),
        Err(wrapped(
            &[Context::Decoding(Entity::Consensus), Context::In(Field::ChainDifficulty)],
            DecodeError::Truncated
        ))
    );
}

#[test]
fn consensus_with_wrong_kinds() {
    assert_eq!(
        Consensus::decode(Value::U64(5)),
        Err(wrapped(
            &[Context::Decoding(Entity::Consensus)],
            DecodeError::StructuralMismatch(Mismatch::WrongType {
                expected: Major::Array,
                found: Major::UnsignedInteger
            })
        ))
    );
    assert_eq!(
        Consensus::decode(Value::Array(vec![Value::Null, Value::Array(vec![Value::U64(1)])])),
        Err(wrapped(
            &[Context::Decoding(Entity::Consensus), Context::In(Field::Epoch)],
            DecodeError::StructuralMismatch(Mismatch::WrongType {
                expected: Major::UnsignedInteger,
                found: Major::Special
            })
        ))
    );
    assert_eq!(
        Consensus::decode(Value::Array(vec![
            Value::U64(1 << 32),
            Value::Array(vec![Value::U64(1)])
        ])),
        Err(wrapped(
            &[Context::Decoding(Entity::Consensus), Context::In(Field::Epoch)],
            DecodeError::StructuralMismatch(Mismatch::OutOfRange { found: 1 << 32 })
        ))
    );
    assert_eq!(
        Consensus::decode(Value::Array(vec![Value::U64(1), Value::U64(1)])),
        Err(wrapped(
            &[Context::Decoding(Entity::Consensus), Context::In(Field::ChainDifficulty)],
            DecodeError::StructuralMismatch(Mismatch::WrongType {
                expected: Major::Array,
                found: Major::UnsignedInteger
            })
        ))
    );
    assert_eq!(
        Consensus::decode(Value::Array(vec![
            Value::U64(1),
            Value::Array(vec![Value::U64(1), Value::U64(2)])
        ])),
        Err(wrapped(
            &[Context::Decoding(Entity::Consensus), Context::In(Field::ChainDifficulty)],
            DecodeError::TrailingData
        ))
    );
    assert_eq!(
        Consensus::decode(Value::IArray(vec![Value::U64(1), Value::Array(vec![Value::U64(1)])])),
        Err(wrapped(
            &[Context::Decoding(Entity::Consensus)],
            DecodeError::StructuralMismatch(Mismatch::WrongType {
                expected: Major::Array,
                found: Major::Array
            })
        ))
    );
}

#[test]
fn header_encodes_as_five_fields() {
    let header = sample_header();
    assert_eq!(
        header.encode(),
        Value::Array(vec![
            Value::U64(764824073),
            Value::Bytes(vec![0xaa; 32]),
            Value::Bytes(vec![0xbb; 32]),
            Value::Array(vec![Value::U64(7), Value::Array(vec![Value::U64(1234567)])]),
            Value::Object(vec![(Value::U64(1), Value::Text("x".to_string()))]),
        ])
    );
}

#[test]
fn header_round_trip() {
    let header = sample_header();
    assert_eq!(BlockHeader::decode(header.encode()), Ok(sample_header()));
}

#[test]
fn header_attributes_that_are_no_mapping() {
    let mut items = match sample_header().encode() {
        Value::Array(items) => items,
        other => panic!("unexpected {:?}", other),
    };
    items[4] = Value::Array(vec![]);
    assert_eq!(
        BlockHeader::decode(Value::Array(items)),
        Err(wrapped(
            &[Context::Decoding(Entity::BlockHeader), Context::In(Field::ExtraData)],
            DecodeError::StructuralMismatch(Mismatch::WrongType {
                expected: Major::Object,
                found: Major::Array
            })
        ))
    );
}

#[test]
fn header_with_leftover_is_trailing_data() {
    let mut items = match sample_header().encode() {
        Value::Array(items) => items,
        other => panic!("unexpected {:?}", other),
    };
    items.push(Value::Null);
    assert_eq!(
        BlockHeader::decode(Value::Array(items)),
        Err(wrapped(&[Context::Decoding(Entity::BlockHeader)], DecodeError::TrailingData))
    );
}

#[test]
fn header_field_failures_name_the_field() {
    let full = || match sample_header().encode() {
        Value::Array(items) => items,
        other => panic!("unexpected {:?}", other),
    };
    let fields = [
        Field::ProtocolMagic,
        Field::PreviousHeaderHash,
        Field::BodyProof,
        Field::Consensus,
        Field::ExtraData,
    ];
    for (n, field) in fields.iter().enumerate() {
        let mut items = full();
        items.truncate(n);
        assert_eq!(
            BlockHeader::decode(Value::Array(items)),
            Err(wrapped(
                &[Context::Decoding(Entity::BlockHeader), Context::In(*field)],
                DecodeError::Truncated
            ))
        );
    }
    let mut items = full();
    items[1] = Value::Bytes(vec![0; 31]);
    assert_eq!(
        BlockHeader::decode(Value::Array(items)),
        Err(wrapped(
            &[Context::Decoding(Entity::BlockHeader), Context::In(Field::PreviousHeaderHash)],
            DecodeError::StructuralMismatch(Mismatch::WrongSize { expected: 32, found: 31 })
        ))
    );
    let mut items = full();
    items[2] = Value::Text("no".to_string());
    assert_eq!(
        BlockHeader::decode(Value::Array(items)),
        Err(wrapped(
            &[
                Context::Decoding(Entity::BlockHeader),
                Context::In(Field::BodyProof),
                Context::Decoding(Entity::BodyProof),
            ],
            DecodeError::StructuralMismatch(Mismatch::WrongType {
                expected: Major::Bytes,
                found: Major::Text
            })
        ))
    );
    let mut items = full();
    items[3] = Value::Array(vec![Value::U64(7)]);
    assert_eq!(
        BlockHeader::decode(Value::Array(items)),
        Err(wrapped(
            &[
                Context::Decoding(Entity::BlockHeader),
                Context::In(Field::Consensus),
                Context::Decoding(Entity::Consensus),
                Context::In(Field::ChainDifficulty),
            ],
            DecodeError::Truncated
        ))
    );
}

#[test]
fn body_encodes_as_open_sequence() {
    assert_eq!(
        sample_body().encode(),
        Value::IArray(vec![
            Value::Bytes(vec![1; 28]),
            Value::Bytes(vec![2; 28]),
            Value::Bytes(vec![3; 28]),
        ])
    );
    assert_eq!(Body { slot_leaders: vec![] }.encode(), Value::IArray(vec![]));
}

#[test]
fn body_round_trip_keeps_order() {
    assert_eq!(Body::decode(sample_body().encode()), Ok(sample_body()));
    assert_eq!(Body::decode(Value::IArray(vec![])), Ok(Body { slot_leaders: vec![] }));
    let many = Body {
        slot_leaders: (0..100u8).map(|i| StakeholderId::from_slice(&[i; 28]).unwrap()).collect(),
    };
    let decoded = Body::decode(many.encode()).unwrap();
    for i in 0..100u8 {
        assert_eq!(decoded.slot_leaders[i as usize].to_vec(), vec![i; 28]);
    }
}

#[test]
fn body_reports_the_first_bad_leader() {
    let value = Value::IArray(vec![
        Value::Bytes(vec![1; 28]),
        Value::Bytes(vec![2; 27]),
        Value::U64(3),
    ]);
    assert_eq!(
        Body::decode(value),
        Err(wrapped(
            &[Context::Decoding(Entity::Body)],
            DecodeError::StructuralMismatch(Mismatch::WrongSize { expected: 28, found: 27 })
        ))
    );
    assert_eq!(
        Body::decode(Value::Array(vec![])),
        Err(wrapped(
            &[Context::Decoding(Entity::Body)],
            DecodeError::StructuralMismatch(Mismatch::WrongType {
                expected: Major::Array,
                found: Major::Array
            })
        ))
    );
}

#[test]
fn body_proof_round_trip() {
    let proof = BodyProof(Blake2b256::from_slice(&[9; 32]).unwrap());
    assert_eq!(proof.encode(), Value::Bytes(vec![9; 32]));
    assert_eq!(BodyProof::decode(proof.encode()), Ok(proof));
    assert_eq!(
        BodyProof::decode(Value::Bytes(vec![9; 33])),
        Err(wrapped(
            &[Context::Decoding(Entity::BodyProof)],
            DecodeError::StructuralMismatch(Mismatch::WrongSize { expected: 32, found: 33 })
        ))
    );
}

#[test]
fn block_round_trip() {
    let block = Block { header: sample_header(), body: sample_body(), extra: Value::Null };
    let encoded = block.encode();
    assert_eq!(
        encoded,
        Value::Array(vec![sample_header().encode(), sample_body().encode(), Value::Null])
    );
    assert_eq!(Block::decode(encoded), Ok(block));
}

#[test]
fn block_keeps_the_extra_value() {
    let extra = Value::Array(vec![Value::Array(vec![]), Value::Object(vec![])]);
    let value =
        Value::Array(vec![sample_header().encode(), sample_body().encode(), extra.duplicate()]);
    let block = Block::decode(value).unwrap();
    assert_eq!(block.extra, extra);
}

#[test]
fn block_field_failures_name_the_field() {
    assert_eq!(
        Block::decode(Value::Array(vec![])),
        Err(wrapped(
            &[Context::Decoding(Entity::Block), Context::In(Field::Header)],
            DecodeError::Truncated
        ))
    );
    assert_eq!(
        Block::decode(Value::Array(vec![sample_header().encode()])),
        Err(wrapped(
            &[Context::Decoding(Entity::Block), Context::In(Field::Body)],
            DecodeError::Truncated
        ))
    );
    assert_eq!(
        Block::decode(Value::Array(vec![sample_header().encode(), sample_body().encode()])),
        Err(wrapped(
            &[Context::Decoding(Entity::Block), Context::In(Field::Extra)],
            DecodeError::Truncated
        ))
    );
    assert_eq!(
        Block::decode(Value::Array(vec![
            sample_header().encode(),
            sample_body().encode(),
            Value::Null,
            Value::Null
        ])),
        Err(wrapped(&[Context::Decoding(Entity::Block)], DecodeError::TrailingData))
    );
    let err = Block::decode(Value::Array(vec![Value::Array(vec![Value::Null])])).unwrap_err();
    assert_eq!(
        err.path(),
        vec![
            Context::Decoding(Entity::Block),
            Context::In(Field::Header),
            Context::Decoding(Entity::BlockHeader),
            Context::In(Field::ProtocolMagic),
        ]
    );
    assert_eq!(
        *err.cause(),
        DecodeError::StructuralMismatch(Mismatch::WrongType {
            expected: Major::UnsignedInteger,
            found: Major::Special
        })
    );
    assert_eq!(Field::ProtocolMagic.name(), "protocol magic");
    assert_eq!(Field::Header.name(), "header");
    assert_eq!(Entity::Block.name(), "Block");
}

#[test]
fn both_paths_agree_on_a_block() {
    let mut bytes = vec![0x83, 0x85, 0x1a, 0x2d, 0x96, 0x4a, 0x09, 0x58, 0x20];
    bytes.extend([0x11; 32]);
    bytes.extend([0x58, 0x20]);
    bytes.extend([0x22; 32]);
    bytes.extend([0x82, 0x05, 0x81, 0x18, 0x2a, 0xa0]);
    bytes.push(0x9f);
    bytes.extend([0x58, 0x1c]);
    bytes.extend([0x33; 28]);
    bytes.push(0xff);
    bytes.extend([0x82, 0x80, 0xa0]);
    let streamed = Block::from_bytes(&bytes).unwrap();
    let through_value = Block::decode(Value::from_bytes(&bytes).unwrap()).unwrap();
    assert_eq!(streamed.header, through_value.header);
    assert_eq!(streamed.body, through_value.body);
    assert_eq!(streamed.extra, Value::Null);
    assert_eq!(
        through_value.extra,
        Value::Array(vec![Value::Array(vec![]), Value::Object(vec![])])
    );
}

#[test]
fn scalar_values_round_trip() {
    assert_eq!(ProtocolMagic(7).encode(), Value::U64(7));
    assert_eq!(ProtocolMagic::decode(Value::U64(7)), Ok(ProtocolMagic(7)));
    assert_eq!(
        ProtocolMagic::decode(Value::U64(1 << 33)),
        Err(DecodeError::StructuralMismatch(Mismatch::OutOfRange { found: 1 << 33 }))
    );
    assert_eq!(ChainDifficulty(9).encode(), Value::Array(vec![Value::U64(9)]));
    assert_eq!(ChainDifficulty::decode(ChainDifficulty(9).encode()), Ok(ChainDifficulty(9)));
    assert_eq!(ChainDifficulty::decode(Value::Array(vec![])), Err(DecodeError::Truncated));
    let id = StakeholderId::from_slice(&[4; 28]).unwrap();
    assert_eq!(StakeholderId::decode(id.encode()), Ok(id));
    let digest = Blake2b256::from_slice(&[5; 32]).unwrap();
    assert_eq!(Blake2b256::decode(digest.encode()), Ok(digest.clone()));
    assert_eq!(Blake2b256::from_slice(&[5; 31]), None);
    let attributes = BlockHeaderAttributes(Value::Tag(3, Box::new(Value::I64(-2))));
    assert_eq!(attributes.encode(), Value::Tag(3, Box::new(Value::I64(-2))));
    assert_eq!(
        BlockHeaderAttributes::decode(Value::Bool(true)),
        Err(DecodeError::StructuralMismatch(Mismatch::WrongType {
            expected: Major::Object,
            found: Major::Special
        }))
    );
    assert_eq!(
        BlockHeaderAttributes::decode(Value::IObject(vec![(Value::Null, Value::Null)])),
        Ok(BlockHeaderAttributes(Value::IObject(vec![(Value::Null, Value::Null)])))
    );
}

#[test]
fn value_accessors() {
    assert_eq!(Value::U64(3).u64(), Ok(3));
    assert_eq!(Value::U64(3).u32(), Ok(3));
    assert_eq!(Value::Bytes(vec![1]).bytes(), Ok(vec![1]));
    assert_eq!(Value::Array(vec![Value::Null]).array(), Ok(vec![Value::Null]));
    assert_eq!(Value::IArray(vec![Value::Null]).iarray(), Ok(vec![Value::Null]));
    assert_eq!(
        Value::Text("t".to_string()).u64(),
        Err(DecodeError::StructuralMismatch(Mismatch::WrongType {
            expected: Major::UnsignedInteger,
            found: Major::Text
        }))
    );
    assert_eq!(
        Value::I64(-1).bytes(),
        Err(DecodeError::StructuralMismatch(Mismatch::WrongType {
            expected: Major::Bytes,
            found: Major::NegativeInteger
        }))
    );
    assert_eq!(Value::Object(vec![]).major(), Major::Object);
    assert_eq!(Value::IObject(vec![]).major(), Major::Object);
    assert_eq!(Value::Tag(0, Box::new(Value::Null)).major(), Major::Tag);
    assert_eq!(Value::Bool(false).major(), Major::Special);
}

#[test]
fn value_helpers() {
    let tree = Value::Array(vec![
        Value::IObject(vec![(Value::Text("k".to_string()), Value::Bytes(vec![1, 2]))]),
        Value::Tag(9, Box::new(Value::IArray(vec![Value::Bool(true), Value::I64(-5)]))),
    ]);
    assert_eq!(tree.duplicate(), tree);
    assert_eq!(copy_bytes(&vec![1, 2, 3]), vec![1, 2, 3]);
    assert_eq!(
        duplicate_all(&vec![Value::U64(1), Value::Null]),
        vec![Value::U64(1), Value::Null]
    );
    assert_eq!(
        duplicate_entries(&vec![(Value::U64(1), Value::Null)]),
        vec![(Value::U64(1), Value::Null)]
    );
    assert_eq!(
        reversed(vec![Value::U64(1), Value::U64(2), Value::U64(3)]),
        vec![Value::U64(3), Value::U64(2), Value::U64(1)]
    );
    let mut items = vec![Value::U64(1), Value::U64(2)];
    assert_eq!(take_first(&mut items), Ok(Value::U64(1)));
    assert_eq!(take_first(&mut items), Ok(Value::U64(2)));
    assert_eq!(take_first(&mut items), Err(DecodeError::Truncated));
}

#[test]
fn clones_are_equal_to_what_they_copy() {
    let header = sample_header();
    assert_eq!(header.clone(), header);
    let body = sample_body();
    assert_eq!(body.clone(), body);
    let block = Block {
        header: sample_header(),
        body: sample_body(),
        extra: Value::Tag(1, Box::new(Value::Text("x".to_string()))),
    };
    assert_eq!(block.clone(), block);
    let err = wrapped(
        &[Context::Decoding(Entity::Block), Context::In(Field::Body)],
        DecodeError::UnexpectedToken(chain_genesis::wire::Special::Float),
    );
    assert_eq!(err.clone(), err);
    assert_eq!(err.duplicate(), err);
    assert_eq!(
        DecodeError::Truncated.embed(Context::In(Field::Epoch)),
        wrapped(&[Context::In(Field::Epoch)], DecodeError::Truncated)
    );
    let value = Value::IObject(vec![(Value::U64(1), Value::Array(vec![Value::Null]))]);
    assert_eq!(value.clone(), value);
}
