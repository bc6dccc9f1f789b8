use tpm2_structs::algorithms::{
    Cipher, EllipticCurve, HashingAlgorithm, TPM2_ALG_AES, TPM2_ALG_CAMELLIA, TPM2_ALG_CFB,
    TPM2_ALG_NULL, TPM2_ALG_RSASSA, TPM2_ALG_SM4, TPM2_ALG_XOR,
};
use tpm2_structs::errors::WrapperErrorKind;
use tpm2_structs::params::{TpmsEccParmsBuilder, TpmsRsaParmsBuilder};
use tpm2_structs::schemes::{AsymSchemeUnion, TpmuAsymScheme};
use tpm2_structs::sym::{TpmtSymDefBuilder, TpmtSymDefObject};

fn aes_256_cfb_object() -> TpmtSymDefObject {
    TpmtSymDefObject { algorithm: TPM2_ALG_AES, key_bits: 256, mode: TPM2_ALG_CFB }
}

#[test]
fn rsa_restricted_decryption_without_symmetric_is_params_missing() {
    let builder = TpmsRsaParmsBuilder {
        symmetric: None,
        scheme: Some(AsymSchemeUnion::AnySig(None)),
        key_bits: 2048,
        exponent: 0,
        for_signing: false,
        for_decryption: true,
        restricted: true,
    };
    assert_eq!(builder.build(), Err(WrapperErrorKind::ParamsMissing));
}

#[test]
fn ecc_restricted_decryption_without_symmetric_is_params_missing() {
    let builder = TpmsEccParmsBuilder {
        symmetric: None,
        scheme: AsymSchemeUnion::AnySig(None),
        curve: EllipticCurve::NistP256,
        for_signing: false,
        for_decryption: true,
        restricted: true,
    };
    assert_eq!(builder.build(), Err(WrapperErrorKind::ParamsMissing));
}

#[test]
fn rsa_unrestricted_build_with_symmetric_is_inconsistent() {
    let mut builder = TpmsRsaParmsBuilder::new_unrestricted_signing_key(
        AsymSchemeUnion::RSASSA(HashingAlgorithm::Sha256),
        2048,
        0,
    );
    builder.symmetric = Some(aes_256_cfb_object());
    assert_eq!(builder.build(), Err(WrapperErrorKind::InconsistentParams));
}

#[test]
fn ecc_unrestricted_build_with_symmetric_is_inconsistent() {
    let mut builder = TpmsEccParmsBuilder::new_unrestricted_signing_key(
        AsymSchemeUnion::ECDSA(HashingAlgorithm::Sha256),
        EllipticCurve::NistP256,
    );
    builder.symmetric = Some(Cipher::aes_256_cfb());
    assert_eq!(builder.build(), Err(WrapperErrorKind::InconsistentParams));
}

#[test]
fn rsa_restricted_decryption_build_succeeds_with_null_scheme() {
    let parms = TpmsRsaParmsBuilder::new_restricted_decryption_key(aes_256_cfb_object(), 2048, 0)
        .build()
        .unwrap();
    assert_eq!(parms.symmetric, aes_256_cfb_object());
    assert_eq!(parms.scheme.scheme, TPM2_ALG_NULL);
    assert_eq!(parms.scheme.details, TpmuAsymScheme::Hash { hash_alg: TPM2_ALG_NULL });
    assert_eq!(parms.key_bits, 2048);
    assert_eq!(parms.exponent, 0);
}

#[test]
fn rsa_unrestricted_signing_build_records_scheme() {
    let parms = TpmsRsaParmsBuilder::new_unrestricted_signing_key(
        AsymSchemeUnion::RSASSA(HashingAlgorithm::Sha256),
        2048,
        0,
    )
    .build()
    .unwrap();
    assert_eq!(parms.scheme.scheme, TPM2_ALG_RSASSA);
    assert_eq!(parms.scheme.details, TpmuAsymScheme::Hash { hash_alg: 0x000B });
    // A key without a symmetric cipher carries the null definition.
    assert_eq!(parms.symmetric.algorithm, TPM2_ALG_NULL);
    assert_eq!(parms.symmetric.key_bits, 0);
    assert_eq!(parms.symmetric.mode, 0);
}

#[test]
fn rsa_restricted_signing_key_rejects_decryption_scheme() {
    let builder = TpmsRsaParmsBuilder {
        symmetric: None,
        scheme: Some(AsymSchemeUnion::RSAES),
        key_bits: 2048,
        exponent: 0,
        for_signing: true,
        for_decryption: false,
        restricted: true,
    };
    assert_eq!(builder.build(), Err(WrapperErrorKind::InconsistentParams));
}

#[test]
fn rsa_build_without_scheme_is_params_missing() {
    let builder = TpmsRsaParmsBuilder {
        symmetric: Some(aes_256_cfb_object()),
        scheme: None,
        key_bits: 2048,
        exponent: 0,
        for_signing: false,
        for_decryption: true,
        restricted: true,
    };
    assert_eq!(builder.build(), Err(WrapperErrorKind::ParamsMissing));
}

#[test]
fn ecc_bn_curve_requires_ecdaa_scheme() {
    let builder = TpmsEccParmsBuilder::new_unrestricted_signing_key(
        AsymSchemeUnion::ECDSA(HashingAlgorithm::Sha256),
        EllipticCurve::BnP256,
    );
    assert_eq!(builder.build(), Err(WrapperErrorKind::InconsistentParams));
}

#[test]
fn ecc_bn_curve_accepts_ecdaa_scheme() {
    let parms = TpmsEccParmsBuilder::new_unrestricted_signing_key(
        AsymSchemeUnion::ECDAA(HashingAlgorithm::Sha256, 7),
        EllipticCurve::BnP256,
    )
    .build()
    .unwrap();
    assert_eq!(parms.scheme.scheme, 0x001A);
    assert_eq!(parms.scheme.details, TpmuAsymScheme::Ecdaa { hash_alg: 0x000B, count: 7 });
    assert_eq!(parms.curve_id, 0x0010);
    assert_eq!(parms.kdf.scheme, TPM2_ALG_NULL);
}

#[test]
fn ecc_signing_and_decryption_together_is_inconsistent() {
    let builder = TpmsEccParmsBuilder {
        symmetric: None,
        scheme: AsymSchemeUnion::ECDSA(HashingAlgorithm::Sha256),
        curve: EllipticCurve::NistP256,
        for_signing: true,
        for_decryption: true,
        restricted: false,
    };
    assert_eq!(builder.build(), Err(WrapperErrorKind::InconsistentParams));
}

#[test]
fn ecc_decryption_key_accepts_ecdh_scheme() {
    let builder = TpmsEccParmsBuilder {
        symmetric: None,
        scheme: AsymSchemeUnion::ECDH(HashingAlgorithm::Sha256),
        curve: EllipticCurve::NistP256,
        for_signing: false,
        for_decryption: true,
        restricted: false,
    };
    let parms = builder.build().unwrap();
    assert_eq!(parms.scheme.scheme, 0x0019);
    assert_eq!(parms.curve_id, 0x0003);
}

#[test]
fn test_sym_parms() {
    let sym_def = TpmtSymDefBuilder::aes_256_cfb();
    assert_eq!(sym_def.algorithm, TPM2_ALG_AES);
    assert_eq!(sym_def.key_bits, 256);
    assert_eq!(sym_def.mode, TPM2_ALG_CFB);

    let built = TpmtSymDefBuilder::new()
        .with_algorithm(TPM2_ALG_AES)
        .with_key_bits(256)
        .with_mode(TPM2_ALG_CFB)
        .build()
        .unwrap();
    assert_eq!(built, sym_def);

    let object = TpmtSymDefBuilder::aes_256_cfb_object();
    assert_eq!(object.algorithm, TPM2_ALG_AES);
    assert_eq!(object.key_bits, 256);
    assert_eq!(object.mode, TPM2_ALG_CFB);
}

#[test]
fn sym_def_builder_without_algorithm_is_params_missing() {
    assert_eq!(TpmtSymDefBuilder::new().build(), Err(WrapperErrorKind::ParamsMissing));
    assert_eq!(TpmtSymDefBuilder::new().build_object(), Err(WrapperErrorKind::ParamsMissing));
}

#[test]
fn sym_def_builder_rejects_unknown_algorithm() {
    let builder = TpmtSymDefBuilder::new().with_algorithm(0x7FFF);
    assert_eq!(builder.build(), Err(WrapperErrorKind::UnsupportedParam));
}

#[test]
fn sym_def_builder_null_algorithm_clears_bits_and_mode() {
    let def =
        TpmtSymDefBuilder::new().with_algorithm(TPM2_ALG_NULL).with_key_bits(256).build().unwrap();
    assert_eq!(def.algorithm, TPM2_ALG_NULL);
    assert_eq!(def.key_bits, 0);
    assert_eq!(def.mode, 0);
}

#[test]
fn sym_def_builder_xor_takes_hash_and_no_mode() {
    let def = TpmtSymDefBuilder::new()
        .with_algorithm(TPM2_ALG_XOR)
        .with_hash(0x000B)
        .with_mode(TPM2_ALG_CFB)
        .build()
        .unwrap();
    assert_eq!(def.algorithm, TPM2_ALG_XOR);
    assert_eq!(def.key_bits, 0x000B);
    assert_eq!(def.mode, 0);
}

#[test]
fn sym_def_builder_block_ciphers_take_bits_and_mode() {
    for alg in [TPM2_ALG_AES, TPM2_ALG_SM4, TPM2_ALG_CAMELLIA] {
        let def = TpmtSymDefBuilder::new()
            .with_algorithm(alg)
            .with_key_bits(128)
            .with_mode(TPM2_ALG_CFB)
            .build_object()
            .unwrap();
        assert_eq!(def.algorithm, alg);
        assert_eq!(def.key_bits, 128);
        assert_eq!(def.mode, TPM2_ALG_CFB);
    }
}
