//! Block versions, consensus versions and the compatibility between them.

use std::collections::BTreeMap;
use vstd::prelude::*;

verus! {

/// The block schema variants this node understands.
///
/// Declaration order is `Genesis`, `Ed25519Signed`, `KesVrfproof`; the wire
/// codes are 0, 1 and 2 and are never renumbered.
#[derive(Debug, Clone, Copy, PartialEq, Eq, Structural)]
pub enum BlockVersion {
    Genesis,
    Ed25519Signed,
    KesVrfproof,
}

/// The consensus algorithms a block can run under. Wire codes 1 and 2.
#[derive(Debug, Clone, Copy, PartialEq, Eq, Structural, PartialOrd, Ord, Hash)]
pub enum ConsensusVersion {
    Bft,
    GenesisPraos,
}

/// Any 16-bit version tag: either one this node understands or a raw code
/// kept as it was read.
#[derive(Debug, Clone, Copy, PartialEq, Eq, Structural)]
pub enum AnyBlockVersion {
    Supported(BlockVersion),
    Unsupported(u16),
}

impl BlockVersion {
    /// The wire code of a block version.
    pub open spec fn spec_code(self) -> u16 {
        match self {
            BlockVersion::Genesis => 0,
            BlockVersion::Ed25519Signed => 1,
            BlockVersion::KesVrfproof => 2,
        }
    }

    /// The block version with the given wire code, if there is one.
    pub open spec fn spec_from_u16(n: u16) -> Option<BlockVersion> {
        if n == 0 {
            Some(BlockVersion::Genesis)
        } else if n == 1 {
            Some(BlockVersion::Ed25519Signed)
        } else if n == 2 {
            Some(BlockVersion::KesVrfproof)
        } else {
            None
        }
    }

    /// The consensus a block version requires: none for `Genesis`.
    pub open spec fn spec_get_consensus(self) -> Option<ConsensusVersion> {
        match self {
            BlockVersion::Genesis => None,
            BlockVersion::Ed25519Signed => Some(ConsensusVersion::Bft),
            BlockVersion::KesVrfproof => Some(ConsensusVersion::GenesisPraos),
        }
    }

    /// Every block version, in declaration order.
    pub open spec fn spec_all() -> Seq<BlockVersion> {
        seq![BlockVersion::Genesis, BlockVersion::Ed25519Signed, BlockVersion::KesVrfproof]
    }

    /// The wire code.
    pub fn code(self) -> (r: u16)
        ensures
            r == self.spec_code(),
    {
        match self {
            BlockVersion::Genesis => 0,
            BlockVersion::Ed25519Signed => 1,
            BlockVersion::KesVrfproof => 2,
        }
    }

    /// The block version with the given wire code, if there is one.
    pub fn from_u16(n: u16) -> (r: Option<BlockVersion>)
        ensures
            r == Self::spec_from_u16(n),
    {
        if n == 0 {
            Some(BlockVersion::Genesis)
        } else if n == 1 {
            Some(BlockVersion::Ed25519Signed)
        } else if n == 2 {
            Some(BlockVersion::KesVrfproof)
        } else {
            None
        }
    }

    /// The consensus that this block version requires: none for `Genesis`.
    pub fn get_consensus(self) -> (r: Option<ConsensusVersion>)
        ensures
            r == self.spec_get_consensus(),
    {
        match self {
            BlockVersion::Genesis => None,
            BlockVersion::Ed25519Signed => Some(ConsensusVersion::Bft),
            BlockVersion::KesVrfproof => Some(ConsensusVersion::GenesisPraos),
        }
    }

    /// Every block version, in declaration order.
    pub fn all() -> (r: Vec<BlockVersion>)
        ensures
            r@ == Self::spec_all(),
    {
        let mut v: Vec<BlockVersion> = Vec::new();
        v.push(BlockVersion::Genesis);
        v.push(BlockVersion::Ed25519Signed);
        v.push(BlockVersion::KesVrfproof);
        v
    }
}

impl ConsensusVersion {
    /// The wire code of a consensus version.
    pub open spec fn spec_code(self) -> u16 {
        match self {
            ConsensusVersion::Bft => 1,
            ConsensusVersion::GenesisPraos => 2,
        }
    }

    /// The block versions that run under this consensus: those of the whole
    /// enumeration whose required consensus is this one, in declaration
    /// order.
    pub open spec fn spec_supported_block_versions(self) -> Seq<BlockVersion> {
        compatible_among(BlockVersion::spec_all(), self)
    }

    /// The wire code.
    pub fn code(self) -> (r: u16)
        ensures
            r == self.spec_code(),
    {
        match self {
            ConsensusVersion::Bft => 1,
            ConsensusVersion::GenesisPraos => 2,
        }
    }

    /// Derives the compatible block versions from the block-version side of
    /// the mapping, so the two directions cannot drift apart.
    pub fn supported_block_versions(self) -> (r: Vec<BlockVersion>)
        ensures
            r@ == self.spec_supported_block_versions(),
    {
        let all = BlockVersion::all();
        let mut out: Vec<BlockVersion> = Vec::new();
        let mut i: usize = 0;
        while i < all.len()
            invariant
                i <= all.len(),
                out@ == compatible_among(all@.take(i as int), self),
            decreases all.len() - i,
        {
            let version = all[i];
            proof {
                assert(all@.take(i + 1).drop_last() =~= all@.take(i as int));
            }
            match version.get_consensus() {
                Some(consensus) => {
                    if consensus == self {
                        out.push(version);
                    }
                },
                None => {},
            }
            i += 1;
        }
        proof {
            assert(all@.take(i as int) =~= all@);
        }
        out
    }
}

/// Of `versions`, those whose required consensus is `consensus`, in the
/// order in which they stand in `versions`.
pub open spec fn compatible_among(versions: Seq<BlockVersion>, consensus: ConsensusVersion) -> Seq<
    BlockVersion,
>
    decreases versions.len(),
{
    if versions.len() == 0 {
        Seq::empty()
    } else {
        let earlier = compatible_among(versions.drop_last(), consensus);
        if versions.last().spec_get_consensus() == Some(consensus) {
            earlier.push(versions.last())
        } else {
            earlier
        }
    }
}

impl AnyBlockVersion {
    /// The classification of a raw 16-bit code.
    pub open spec fn spec_classify(n: u16) -> AnyBlockVersion {
        match BlockVersion::spec_from_u16(n) {
            Some(v) => AnyBlockVersion::Supported(v),
            None => AnyBlockVersion::Unsupported(n),
        }
    }

    /// The block version of a supported tag, nothing for an unsupported one.
    pub open spec fn spec_try_into_block_version(self) -> Option<BlockVersion> {
        match self {
            AnyBlockVersion::Supported(v) => Some(v),
            AnyBlockVersion::Unsupported(_) => None,
        }
    }

    /// The 16-bit code a version tag stands for.
    pub open spec fn spec_code(self) -> u16 {
        match self {
            AnyBlockVersion::Supported(v) => v.spec_code(),
            AnyBlockVersion::Unsupported(n) => n,
        }
    }

    /// Narrows to a block version: the version of a supported tag, nothing
    /// for an unsupported one. Never fails otherwise.
    pub fn try_into_block_version(self) -> (r: Option<BlockVersion>)
        ensures
            r == self.spec_try_into_block_version(),
    {
        match self {
            AnyBlockVersion::Supported(version) => Some(version),
            AnyBlockVersion::Unsupported(_) => None,
        }
    }
}

impl From<u16> for AnyBlockVersion {
    fn from(n: u16) -> (r: AnyBlockVersion)
        ensures
            r == AnyBlockVersion::spec_classify(n),
    {
        match BlockVersion::from_u16(n) {
            Some(supported) => AnyBlockVersion::Supported(supported),
            None => AnyBlockVersion::Unsupported(n),
        }
    }
}

impl vstd::std_specs::convert::FromSpecImpl<u16> for AnyBlockVersion {
    open spec fn obeys_from_spec() -> bool {
        true
    }

    open spec fn from_spec(n: u16) -> AnyBlockVersion {
        AnyBlockVersion::spec_classify(n)
    }
}

impl From<BlockVersion> for AnyBlockVersion {
    fn from(version: BlockVersion) -> (r: AnyBlockVersion)
        ensures
            r == AnyBlockVersion::Supported(version),
    {
        AnyBlockVersion::Supported(version)
    }
}

impl vstd::std_specs::convert::FromSpecImpl<BlockVersion> for AnyBlockVersion {
    open spec fn obeys_from_spec() -> bool {
        true
    }

    open spec fn from_spec(version: BlockVersion) -> AnyBlockVersion {
        AnyBlockVersion::Supported(version)
    }
}

impl From<AnyBlockVersion> for u16 {
    fn from(version: AnyBlockVersion) -> (r: u16)
        ensures
            r == version.spec_code(),
    {
        match version {
            AnyBlockVersion::Supported(v) => v.code(),
            AnyBlockVersion::Unsupported(n) => n,
        }
    }
}

impl vstd::std_specs::convert::FromSpecImpl<AnyBlockVersion> for u16 {
    open spec fn obeys_from_spec() -> bool {
        true
    }

    open spec fn from_spec(version: AnyBlockVersion) -> u16 {
        version.spec_code()
    }
}

impl PartialEq<BlockVersion> for AnyBlockVersion {
    fn eq(&self, other: &BlockVersion) -> (r: bool) {
        match self {
            AnyBlockVersion::Supported(version) => *version == *other,
            AnyBlockVersion::Unsupported(_) => false,
        }
    }
}

impl vstd::std_specs::cmp::PartialEqSpecImpl<BlockVersion> for AnyBlockVersion {
    open spec fn obeys_eq_spec() -> bool {
        true
    }

    open spec fn eq_spec(&self, other: &BlockVersion) -> bool {
        *self == AnyBlockVersion::Supported(*other)
    }
}

/// A reverse index agrees with the mapping from block version to consensus
/// over the first `n` block versions: a consensus code is a key exactly when
/// one of them requires that consensus, and its entry lists them in
/// declaration order.
pub open spec fn indexes(mapping: Map<u16, Vec<BlockVersion>>, n: int) -> bool {
    let seen = BlockVersion::spec_all().take(n);
    &&& forall|c: ConsensusVersion| #[trigger]
        mapping.contains_key(c.spec_code()) <==> compatible_among(seen, c).len() > 0
    &&& forall|c: ConsensusVersion| #[trigger]
        mapping.contains_key(c.spec_code()) ==> mapping[c.spec_code()]@ == compatible_among(
            seen,
            c,
        )
}

/// The reverse index from consensus code to compatible block versions. It is
/// built once from the block-version enumeration and only read afterwards.
pub struct VersionRegistry {
    mapping: BTreeMap<u16, Vec<BlockVersion>>,
}

impl VersionRegistry {
    /// The index covers the whole enumeration.
    #[verifier::type_invariant]
    spec fn wf(self) -> bool {
        indexes(self.mapping@, BlockVersion::spec_all().len() as int)
    }

    /// What the index holds for a consensus version: its entry, nothing
    /// where it has none.
    pub closed spec fn spec_lookup(self, consensus: ConsensusVersion) -> Seq<BlockVersion> {
        if self.mapping@.contains_key(consensus.spec_code()) {
            self.mapping@[consensus.spec_code()]@
        } else {
            Seq::empty()
        }
    }

    /// Builds the index from the whole block-version enumeration.
    pub fn new() -> (r: VersionRegistry)
        ensures
            forall|c: ConsensusVersion| #[trigger]
                r.spec_lookup(c) == c.spec_supported_block_versions(),
    {
        broadcast use vstd::std_specs::btree::group_btree_axioms;

        let all = BlockVersion::all();
        let mut mapping: BTreeMap<u16, Vec<BlockVersion>> = BTreeMap::new();
        let mut i: usize = 0;
        while i < all.len()
            invariant
                i <= all.len(),
                all@ == BlockVersion::spec_all(),
                indexes(mapping@, i as int),
            decreases all.len() - i,
        {
            let version = all[i];
            proof {
                assert(all@.take(i + 1).drop_last() =~= all@.take(i as int));
            }
            match version.get_consensus() {
                Some(consensus) => {
                    let key = consensus.code();
                    let ghost before = mapping@;
                    let ghost seen = all@.take(i as int);
                    let mut list = match mapping.remove(&key) {
                        Some(list) => list,
                        None => Vec::new(),
                    };
                    assert(list@ == compatible_among(seen, consensus));
                    list.push(version);
                    mapping.insert(key, list);
                },
                None => {},
            }
            i += 1;
        }
        let registry = VersionRegistry { mapping };
        assert(all@.take(i as int) =~= all@);
        registry
    }

    /// The block versions compatible with `consensus`: empty where no block
    /// version requires it.
    pub fn supported_block_versions(&self, consensus: ConsensusVersion) -> (r: Vec<BlockVersion>)
        ensures
            r@ == consensus.spec_supported_block_versions(),
            r@ == self.spec_lookup(consensus),
    {
        broadcast use vstd::std_specs::btree::group_btree_axioms;

        proof {
            use_type_invariant(self);
            let all = BlockVersion::spec_all();
            assert(all.take(all.len() as int) =~= all);
        }
        let key = consensus.code();
        let mut out: Vec<BlockVersion> = Vec::new();
        match self.mapping.get(&key) {
            Some(list) => {
                let mut i: usize = 0;
                while i < list.len()
                    invariant
                        i <= list.len(),
                        out@ == list@.take(i as int),
                    decreases list.len() - i,
                {
                    out.push(list[i]);
                    i += 1;
                }
            },
            None => {},
        }
        out
    }
}

/// Classification is total and exact: narrowing the classification of a code
/// gives a block version exactly for the codes 0, 1 and 2, and then the
/// version whose code it is; the classification always stands for the code
/// it was made from.
pub proof fn lemma_classification_total(code: u16)
    ensures
        AnyBlockVersion::spec_classify(code).spec_try_into_block_version() is Some <==> code <= 2,
        code == 0 ==> AnyBlockVersion::spec_classify(code).spec_try_into_block_version() == Some(
            BlockVersion::Genesis,
        ),
        code == 1 ==> AnyBlockVersion::spec_classify(code).spec_try_into_block_version() == Some(
            BlockVersion::Ed25519Signed,
        ),
        code == 2 ==> AnyBlockVersion::spec_classify(code).spec_try_into_block_version() == Some(
            BlockVersion::KesVrfproof,
        ),
        AnyBlockVersion::spec_classify(code).spec_code() == code,
{
}

/// Every block version is the classification of its own wire code.
pub proof fn lemma_code_round_trip(version: BlockVersion)
    ensures
        BlockVersion::spec_from_u16(version.spec_code()) == Some(version),
        AnyBlockVersion::spec_classify(version.spec_code()) == AnyBlockVersion::Supported(version),
{
}

/// The compatibility lists: `[Ed25519Signed]` under Bft and `[KesVrfproof]`
/// under Genesis-Praos.
pub proof fn lemma_supported_block_versions()
    ensures
        ConsensusVersion::Bft.spec_supported_block_versions() == seq![BlockVersion::Ed25519Signed],
        ConsensusVersion::GenesisPraos.spec_supported_block_versions() == seq![
            BlockVersion::KesVrfproof,
        ],
{
    let all = BlockVersion::spec_all();
    let two = all.drop_last();
    let one = two.drop_last();
    reveal_with_fuel(compatible_among, 4);
}

/// The two directions of the mapping agree: a block version stands in the
/// list of a consensus version exactly when that is the consensus it
/// requires. So the lists together hold exactly the block versions with a
/// required consensus, and `Genesis` stands in none.
pub proof fn lemma_supported_iff_required(version: BlockVersion, consensus: ConsensusVersion)
    ensures
        consensus.spec_supported_block_versions().contains(version)
            <==> version.spec_get_consensus() == Some(consensus),
{
    lemma_supported_block_versions();
    let bft = seq![BlockVersion::Ed25519Signed];
    let praos = seq![BlockVersion::KesVrfproof];
    assert(bft[0] == BlockVersion::Ed25519Signed);
    assert(praos[0] == BlockVersion::KesVrfproof);
}

} // verus!
