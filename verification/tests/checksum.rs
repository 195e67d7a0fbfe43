use hedera::entity_id::validate_checksums;
use hedera::{Checksum, EntityId, Error, LedgerId};

#[test]
fn checksum_of_known_address_on_each_network() {
    let id = EntityId::new(0, 0, 123);
    assert_eq!(&id.generate_checksum(&LedgerId::mainnet()).letters, b"vfmkw");
    assert_eq!(&id.generate_checksum(&LedgerId::testnet()).letters, b"esxsf");
    assert_eq!(&id.generate_checksum(&LedgerId::previewnet()).letters, b"ogizo");
}

#[test]
fn checksum_depends_on_every_component() {
    let net = LedgerId::mainnet();
    let base = EntityId::new(0, 0, 123).generate_checksum(&net);
    assert_ne!(EntityId::new(1, 0, 123).generate_checksum(&net), base);
    assert_ne!(EntityId::new(0, 1, 123).generate_checksum(&net), base);
    assert_ne!(EntityId::new(0, 0, 124).generate_checksum(&net), base);
    assert_ne!(EntityId::new(0, 0, 123).generate_checksum(&LedgerId::from_bytes(vec![3])), base);
    let big = EntityId::new(u64::MAX, u64::MAX, u64::MAX).generate_checksum(&net);
    assert!(big.letters.iter().all(|l| l.is_ascii_lowercase()));
}

#[test]
fn checksum_for_one_network_fails_on_another() {
    let a = LedgerId::mainnet();
    let b = LedgerId::testnet();
    let id = EntityId::new(0, 0, 123).to_checksummed(&a);
    assert_eq!(id.checksum, Some(Checksum { letters: *b"vfmkw" }));
    assert_eq!(id.validate_checksum(&a), Ok(()));
    assert_eq!(
        id.validate_checksum(&b),
        Err(Error::ChecksumMismatch { id, expected: Checksum { letters: *b"esxsf" } })
    );
}

#[test]
fn absent_checksum_is_valid_everywhere() {
    let id = EntityId::new(0, 0, 123);
    assert_eq!(id.validate_checksum(&LedgerId::mainnet()), Ok(()));
    assert_eq!(id.validate_checksum(&LedgerId::testnet()), Ok(()));
    assert_eq!(id.validate_checksum(&LedgerId::from_bytes(vec![])), Ok(()));
}

#[test]
fn validation_stops_at_the_first_mismatch() {
    let a = LedgerId::mainnet();
    let b = LedgerId::testnet();
    let good = EntityId::new(0, 0, 1).to_checksummed(&a);
    let bad1 = EntityId::new(0, 0, 2).to_checksummed(&b);
    let bad2 = EntityId::new(0, 0, 3).to_checksummed(&b);
    let plain = EntityId::new(0, 0, 4);
    assert_eq!(validate_checksums(&vec![], &a), Ok(()));
    assert_eq!(validate_checksums(&vec![good, plain], &a), Ok(()));
    assert_eq!(
        validate_checksums(&vec![good, plain, bad1, bad2], &a),
        Err(Error::ChecksumMismatch {
            id: bad1,
            expected: EntityId::new(0, 0, 2).generate_checksum(&a),
        })
    );
}
