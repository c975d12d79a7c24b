//! Decode failures, each with the structural path that leads to the fault.

use crate::wire::{Len, Major, Special};
use vstd::prelude::*;

verus! {

/// The typed entities of the genesis block schema.
#[derive(Debug, Clone, Copy, PartialEq, Eq, Structural)]
pub enum Entity {
    BodyProof,
    Body,
    Consensus,
    BlockHeader,
    Block,
}

/// The fields of the aggregates, by the aggregate they stand in.
#[derive(Debug, Clone, Copy, PartialEq, Eq, Structural)]
pub enum Field {
    /// Consensus: the epoch id.
    Epoch,
    /// Consensus: the chain difficulty.
    ChainDifficulty,
    /// BlockHeader: the network magic.
    ProtocolMagic,
    /// BlockHeader: the hash of the previous header.
    PreviousHeaderHash,
    /// BlockHeader: the body proof.
    BodyProof,
    /// BlockHeader: the consensus record.
    Consensus,
    /// BlockHeader: the extension attributes.
    ExtraData,
    /// Block: the header.
    Header,
    /// Block: the body.
    Body,
    /// Block: the reserved extra slot.
    Extra,
}

/// One step of the path from the top-level entity down to a fault.
#[derive(Debug, Clone, Copy, PartialEq, Eq, Structural)]
pub enum Context {
    Decoding(Entity),
    In(Field),
}

/// How an item fails to have the expected shape.
#[allow(inconsistent_fields)]
#[derive(Debug, Clone, Copy, PartialEq, Eq, Structural)]
pub enum Mismatch {
    /// An item of another major type than the shape asks for.
    WrongType { expected: Major, found: Major },
    /// A sequence with another declared length than the shape asks for.
    WrongArity { expected: Len, found: Len },
    /// A byte string of another size than the digest it should hold.
    WrongSize { expected: u64, found: u64 },
    /// An integer too large for the field it should fill.
    OutOfRange { found: u64 },
    /// An item head with one of the reserved length codes.
    UnknownLenType(u8),
    /// An indefinite length where the item needs a value.
    IndefiniteLength,
    /// A text string whose content is not valid UTF-8.
    InvalidText,
}

/// A decode failure. `Embedded` wraps a failure with the place where it
/// arose, so that nested wraps read from the outermost entity inwards.
#[derive(Debug, PartialEq, Eq)]
pub enum DecodeError {
    /// Wrong element count or wrong item type for the expected shape.
    StructuralMismatch(Mismatch),
    /// Elements remain after the required fields were taken, or bytes
    /// after a value that had to use up its input.
    TrailingData,
    /// The input ended before a terminator or before a required field.
    Truncated,
    /// A special item that has no place where it stands: anything but a
    /// break where only a break is valid, or a break, a float or an
    /// unassigned code where a value is expected.
    UnexpectedToken(Special),
    /// A failure together with the place where it arose.
    Embedded(Context, Box<DecodeError>),
}

impl Entity {
    /// The name, as it is written in messages.
    pub fn name(&self) -> (r: &'static str)
        ensures
            r@ == self.spec_name(),
    {
        match self {
            Entity::BodyProof => "BodyProof",
            Entity::Body => "Body",
            Entity::Consensus => "Consensus",
            Entity::BlockHeader => "BlockHeader",
            Entity::Block => "Block",
        }
    }

    /// The name, as it is written in messages.
    pub open spec fn spec_name(&self) -> Seq<char> {
        match self {
            Entity::BodyProof => "BodyProof"@,
            Entity::Body => "Body"@,
            Entity::Consensus => "Consensus"@,
            Entity::BlockHeader => "BlockHeader"@,
            Entity::Block => "Block"@,
        }
    }
}

impl Field {
    /// The name, as it is written in messages.
    pub fn name(&self) -> (r: &'static str)
        ensures
            r@ == self.spec_name(),
    {
        match self {
            Field::Epoch => "epoch",
            Field::ChainDifficulty => "chain_difficulty",
            Field::ProtocolMagic => "protocol magic",
            Field::PreviousHeaderHash => "Previous Header Hash",
            Field::BodyProof => "body proof",
            Field::Consensus => "consensus",
            Field::ExtraData => "extra_data",
            Field::Header => "header",
            Field::Body => "body",
            Field::Extra => "extra",
        }
    }

    /// The name, as it is written in messages.
    pub open spec fn spec_name(&self) -> Seq<char> {
        match self {
            Field::Epoch => "epoch"@,
            Field::ChainDifficulty => "chain_difficulty"@,
            Field::ProtocolMagic => "protocol magic"@,
            Field::PreviousHeaderHash => "Previous Header Hash"@,
            Field::BodyProof => "body proof"@,
            Field::Consensus => "consensus"@,
            Field::ExtraData => "extra_data"@,
            Field::Header => "header"@,
            Field::Body => "body"@,
            Field::Extra => "extra"@,
        }
    }
}

impl Clone for DecodeError {
    fn clone(&self) -> (r: DecodeError)
        ensures
            r == *self,
    {
        self.duplicate()
    }
}

impl DecodeError {
    /// A copy of a failure, with all its wraps.
    pub fn duplicate(&self) -> (r: DecodeError)
        ensures
            r == *self,
        decreases self,
    {
        match self {
            DecodeError::StructuralMismatch(m) => DecodeError::StructuralMismatch(*m),
            DecodeError::TrailingData => DecodeError::TrailingData,
            DecodeError::Truncated => DecodeError::Truncated,
            DecodeError::UnexpectedToken(t) => DecodeError::UnexpectedToken(*t),
            DecodeError::Embedded(context, inner) => DecodeError::Embedded(
                *context,
                Box::new(inner.duplicate()),
            ),
        }
    }

    /// The places a failure is wrapped in, outermost first.
    pub open spec fn spec_path(self) -> Seq<Context>
        decreases self,
    {
        match self {
            DecodeError::Embedded(context, inner) => seq![context] + inner.spec_path(),
            _ => Seq::empty(),
        }
    }

    /// The failure itself, with all wraps taken off.
    pub open spec fn spec_cause(self) -> DecodeError
        decreases self,
    {
        match self {
            DecodeError::Embedded(_, inner) => inner.spec_cause(),
            _ => self,
        }
    }

    /// Wraps a failure with the place where it arose.
    pub fn embed(self, context: Context) -> (r: DecodeError)
        ensures
            r == DecodeError::Embedded(context, Box::new(self)),
    {
        DecodeError::Embedded(context, Box::new(self))
    }

    /// The places this failure is wrapped in, outermost first.
    pub fn path(&self) -> (r: Vec<Context>)
        ensures
            r@ == self.spec_path(),
    {
        let mut out: Vec<Context> = Vec::new();
        let mut at: &DecodeError = self;
        loop
            invariant
                self.spec_path() == out@ + at.spec_path(),
            ensures
                out@ == self.spec_path(),
            decreases at,
        {
            match at {
                DecodeError::Embedded(context, inner) => {
                    out.push(*context);
                    at = &**inner;
                },
                _ => {
                    break;
                },
            }
        }
        out
    }

    /// The failure itself, with all wraps taken off.
    pub fn cause(&self) -> (r: &DecodeError)
        ensures
            *r == self.spec_cause(),
            !(*r is Embedded),
    {
        let mut at: &DecodeError = self;
        loop
            invariant
                self.spec_cause() == at.spec_cause(),
            ensures
                *at == self.spec_cause(),
                !(*at is Embedded),
            decreases at,
        {
            match at {
                DecodeError::Embedded(_, inner) => {
                    at = &**inner;
                },
                _ => {
                    break;
                },
            }
        }
        at
    }

    /// Whether the failure arose while decoding `entity`, at any depth.
    pub fn names(&self, entity: Entity) -> (r: bool)
        ensures
            r == self.spec_path().contains(Context::Decoding(entity)),
    {
        let path = self.path();
        let mut i: usize = 0;
        while i < path.len()
            invariant
                i <= path.len(),
                path@ == self.spec_path(),
                forall|j: int| 0 <= j < i ==> path@[j] != Context::Decoding(entity),
            decreases path.len() - i,
        {
            if path[i] == Context::Decoding(entity) {
                return true;
            }
            i += 1;
        }
        false
    }
}

} // verus!
