use chain_genesis::version::{AnyBlockVersion, BlockVersion, ConsensusVersion, VersionRegistry};

#[test]
fn classification_of_known_codes() {
    assert_eq!(AnyBlockVersion::from(0u16), AnyBlockVersion::Supported(BlockVersion::Genesis));
    assert_eq!(
        AnyBlockVersion::from(1u16),
        AnyBlockVersion::Supported(BlockVersion::Ed25519Signed)
    );
    assert_eq!(AnyBlockVersion::from(2u16), AnyBlockVersion::Supported(BlockVersion::KesVrfproof));
}

#[test]
fn classification_of_unknown_codes() {
    assert_eq!(AnyBlockVersion::from(3u16), AnyBlockVersion::Unsupported(3));
    assert_eq!(AnyBlockVersion::from(0xffffu16), AnyBlockVersion::Unsupported(0xffff));
}

#[test]
fn classification_is_total() {
    let mut code: u16 = 0;
    loop {
        let narrowed = AnyBlockVersion::from(code).try_into_block_version();
        match code {
            0 => assert_eq!(narrowed, Some(BlockVersion::Genesis)),
            1 => assert_eq!(narrowed, Some(BlockVersion::Ed25519Signed)),
            2 => assert_eq!(narrowed, Some(BlockVersion::KesVrfproof)),
            _ => assert_eq!(narrowed, None),
        }
        let back: u16 = AnyBlockVersion::from(code).into();
        assert_eq!(back, code);
        if code == u16::MAX {
            break;
        }
        code += 1;
    }
}

#[test]
fn try_into_block_version_narrows() {
    assert_eq!(
        AnyBlockVersion::Supported(BlockVersion::KesVrfproof).try_into_block_version(),
        Some(BlockVersion::KesVrfproof)
    );
    assert_eq!(AnyBlockVersion::Unsupported(7).try_into_block_version(), None);
}

#[test]
fn any_block_version_compares_with_block_version() {
    assert!(AnyBlockVersion::Supported(BlockVersion::Genesis) == BlockVersion::Genesis);
    assert!(!(AnyBlockVersion::Supported(BlockVersion::Genesis) == BlockVersion::KesVrfproof));
    assert!(!(AnyBlockVersion::Unsupported(0) == BlockVersion::Genesis));
}

#[test]
fn from_block_version_is_supported() {
    assert_eq!(
        AnyBlockVersion::from(BlockVersion::Ed25519Signed),
        AnyBlockVersion::Supported(BlockVersion::Ed25519Signed)
    );
}

#[test]
fn wire_codes_are_fixed() {
    assert_eq!(BlockVersion::Genesis.code(), 0);
    assert_eq!(BlockVersion::Ed25519Signed.code(), 1);
    assert_eq!(BlockVersion::KesVrfproof.code(), 2);
    assert_eq!(ConsensusVersion::Bft.code(), 1);
    assert_eq!(ConsensusVersion::GenesisPraos.code(), 2);
    assert_eq!(BlockVersion::from_u16(2), Some(BlockVersion::KesVrfproof));
    assert_eq!(BlockVersion::from_u16(3), None);
}

#[test]
fn get_consensus_of_each_version() {
    assert_eq!(BlockVersion::Genesis.get_consensus(), None);
    assert_eq!(BlockVersion::Ed25519Signed.get_consensus(), Some(ConsensusVersion::Bft));
    assert_eq!(BlockVersion::KesVrfproof.get_consensus(), Some(ConsensusVersion::GenesisPraos));
}

#[test]
fn supported_block_versions_of_each_consensus() {
    assert_eq!(
        ConsensusVersion::Bft.supported_block_versions(),
        vec![BlockVersion::Ed25519Signed]
    );
    assert_eq!(
        ConsensusVersion::GenesisPraos.supported_block_versions(),
        vec![BlockVersion::KesVrfproof]
    );
}

#[test]
fn supported_lists_cover_exactly_the_mapped_versions() {
    for version in BlockVersion::all() {
        let listed = ConsensusVersion::Bft.supported_block_versions().contains(&version)
            || ConsensusVersion::GenesisPraos.supported_block_versions().contains(&version);
        assert_eq!(listed, version.get_consensus().is_some());
    }
    assert_eq!(
        BlockVersion::all(),
        vec![BlockVersion::Genesis, BlockVersion::Ed25519Signed, BlockVersion::KesVrfproof]
    );
}

#[test]
fn registry_agrees_with_direct_derivation() {
    let registry = VersionRegistry::new();
    assert_eq!(
        registry.supported_block_versions(ConsensusVersion::Bft),
        ConsensusVersion::Bft.supported_block_versions()
    );
    assert_eq!(
        registry.supported_block_versions(ConsensusVersion::GenesisPraos),
        vec![BlockVersion::KesVrfproof]
    );
}
