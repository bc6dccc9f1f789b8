use tpm2_structs::algorithms::HashingAlgorithm;
use tpm2_structs::schemes::{AsymSchemeUnion, TpmuAsymScheme};

#[test]
fn rsaes_is_decryption_and_not_signing() {
    assert!(AsymSchemeUnion::RSAES.is_decryption());
    assert!(!AsymSchemeUnion::RSAES.is_signing());
}

#[test]
fn signing_and_decryption_classification_is_exclusive() {
    let schemes = [
        AsymSchemeUnion::ECDH(HashingAlgorithm::Sha256),
        AsymSchemeUnion::ECMQV(HashingAlgorithm::Sha256),
        AsymSchemeUnion::RSASSA(HashingAlgorithm::Sha256),
        AsymSchemeUnion::RSAPSS(HashingAlgorithm::Sha256),
        AsymSchemeUnion::ECDSA(HashingAlgorithm::Sha256),
        AsymSchemeUnion::ECDAA(HashingAlgorithm::Sha256, 0),
        AsymSchemeUnion::SM2(HashingAlgorithm::Sha256),
        AsymSchemeUnion::ECSchnorr(HashingAlgorithm::Sha256),
        AsymSchemeUnion::RSAES,
        AsymSchemeUnion::RSAOAEP(HashingAlgorithm::Sha256),
        AsymSchemeUnion::AnySig(None),
    ];
    for scheme in schemes {
        assert_ne!(scheme.is_signing(), scheme.is_decryption());
        assert!(!(scheme.is_rsa() && scheme.is_ecc()));
    }
}

#[test]
fn any_sig_belongs_to_neither_key_family() {
    assert!(!AsymSchemeUnion::AnySig(None).is_rsa());
    assert!(!AsymSchemeUnion::AnySig(None).is_ecc());
    assert!(!AsymSchemeUnion::AnySig(Some(HashingAlgorithm::Sha256)).is_rsa());
}

#[test]
fn key_families_cover_the_remaining_schemes() {
    assert!(AsymSchemeUnion::RSASSA(HashingAlgorithm::Sha256).is_rsa());
    assert!(AsymSchemeUnion::RSAPSS(HashingAlgorithm::Sha256).is_rsa());
    assert!(AsymSchemeUnion::RSAES.is_rsa());
    assert!(AsymSchemeUnion::RSAOAEP(HashingAlgorithm::Sha256).is_rsa());
    assert!(AsymSchemeUnion::ECDH(HashingAlgorithm::Sha256).is_ecc());
    assert!(AsymSchemeUnion::ECMQV(HashingAlgorithm::Sha256).is_ecc());
    assert!(AsymSchemeUnion::ECDSA(HashingAlgorithm::Sha256).is_ecc());
    assert!(AsymSchemeUnion::ECDAA(HashingAlgorithm::Sha256, 0).is_ecc());
    assert!(AsymSchemeUnion::SM2(HashingAlgorithm::Sha256).is_ecc());
    assert!(AsymSchemeUnion::ECSchnorr(HashingAlgorithm::Sha256).is_ecc());
}

#[test]
fn scheme_ids_match_the_algorithm_registry() {
    let h = HashingAlgorithm::Sha256;
    assert_eq!(AsymSchemeUnion::ECDH(h).scheme_id(), 0x0019);
    assert_eq!(AsymSchemeUnion::ECMQV(h).scheme_id(), 0x001D);
    assert_eq!(AsymSchemeUnion::RSASSA(h).scheme_id(), 0x0014);
    assert_eq!(AsymSchemeUnion::RSAPSS(h).scheme_id(), 0x0016);
    assert_eq!(AsymSchemeUnion::ECDSA(h).scheme_id(), 0x0018);
    assert_eq!(AsymSchemeUnion::ECDAA(h, 1).scheme_id(), 0x001A);
    assert_eq!(AsymSchemeUnion::SM2(h).scheme_id(), 0x001B);
    assert_eq!(AsymSchemeUnion::ECSchnorr(h).scheme_id(), 0x001C);
    assert_eq!(AsymSchemeUnion::RSAES.scheme_id(), 0x0015);
    assert_eq!(AsymSchemeUnion::RSAOAEP(h).scheme_id(), 0x0017);
    assert_eq!(AsymSchemeUnion::AnySig(None).scheme_id(), 0x0010);
}

#[test]
fn details_pack_hash_and_counter() {
    assert_eq!(
        AsymSchemeUnion::RSASSA(HashingAlgorithm::Sha384).get_details(),
        TpmuAsymScheme::Hash { hash_alg: 0x000C }
    );
    assert_eq!(
        AsymSchemeUnion::ECDAA(HashingAlgorithm::Sha256, 42).get_details(),
        TpmuAsymScheme::Ecdaa { hash_alg: 0x000B, count: 42 }
    );
    assert_eq!(AsymSchemeUnion::RSAES.get_details(), TpmuAsymScheme::Empty);
    // The placeholder scheme with no hash maps to the null algorithm.
    assert_eq!(
        AsymSchemeUnion::AnySig(None).get_details(),
        TpmuAsymScheme::Hash { hash_alg: 0x0010 }
    );
    assert_eq!(
        AsymSchemeUnion::AnySig(Some(HashingAlgorithm::Sha1)).get_details(),
        TpmuAsymScheme::Hash { hash_alg: 0x0004 }
    );
}

#[test]
fn scheme_structs_combine_id_and_details() {
    let rsa = AsymSchemeUnion::RSASSA(HashingAlgorithm::Sha256).get_rsa_scheme_struct();
    assert_eq!(rsa.scheme, 0x0014);
    assert_eq!(rsa.details, TpmuAsymScheme::Hash { hash_alg: 0x000B });
    let ecc = AsymSchemeUnion::ECDSA(HashingAlgorithm::Sha256).get_ecc_scheme_struct();
    assert_eq!(ecc.scheme, 0x0018);
    assert_eq!(ecc.details, TpmuAsymScheme::Hash { hash_alg: 0x000B });
}

#[test]
fn hash_algorithm_ids_round_trip() {
    let algs = [
        HashingAlgorithm::Sha1,
        HashingAlgorithm::Sha256,
        HashingAlgorithm::Sha384,
        HashingAlgorithm::Sha512,
        HashingAlgorithm::Sm3_256,
        HashingAlgorithm::Sha3_256,
        HashingAlgorithm::Sha3_384,
        HashingAlgorithm::Sha3_512,
    ];
    for alg in algs {
        assert_eq!(HashingAlgorithm::try_from_alg_id(alg.alg_id()), Ok(alg));
    }
    assert_eq!(
        HashingAlgorithm::try_from_alg_id(0x0010),
        Err(tpm2_structs::errors::WrapperErrorKind::InvalidParam)
    );
}
