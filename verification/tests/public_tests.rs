use tpm2_structs::algorithms::{
    Cipher, EllipticCurve, HashingAlgorithm, TPM2_ALG_ECC, TPM2_ALG_KEYEDHASH, TPM2_ALG_NULL,
    TPM2_ALG_RSA, TPM2_ALG_SHA256,
};
use tpm2_structs::attributes::ObjectAttributes;
use tpm2_structs::errors::WrapperErrorKind;
use tpm2_structs::params::{TpmsEccParmsBuilder, TpmsRsaParmsBuilder};
use tpm2_structs::public::{
    create_restricted_decryption_rsa_public, create_unrestricted_signing_ecc_public,
    create_unrestricted_signing_rsa_public, PublicIdUnion, PublicParmsUnion, Tpm2BPublicBuilder,
    TpmuPublicId, TpmuPublicParms, TPMT_PUBLIC_SIZE,
};
use tpm2_structs::schemes::AsymSchemeUnion;
use tpm2_structs::sym::TpmtSymDefObject;

fn rsa_parms() -> tpm2_structs::params::TpmsRsaParms {
    TpmsRsaParmsBuilder::new_unrestricted_signing_key(
        AsymSchemeUnion::RSASSA(HashingAlgorithm::Sha256),
        2048,
        0,
    )
    .build()
    .unwrap()
}

fn ecc_parms() -> tpm2_structs::params::TpmsEccParms {
    TpmsEccParmsBuilder::new_unrestricted_signing_key(
        AsymSchemeUnion::ECDSA(HashingAlgorithm::Sha256),
        EllipticCurve::NistP256,
    )
    .build()
    .unwrap()
}

#[test]
fn rsa_public_area_with_ecc_parms_is_inconsistent() {
    let result = Tpm2BPublicBuilder::new()
        .with_type(TPM2_ALG_RSA)
        .with_parms(PublicParmsUnion::EccDetail(ecc_parms()))
        .build();
    assert!(matches!(result, Err(WrapperErrorKind::InconsistentParams)));
}

#[test]
fn rsa_public_area_without_parms_is_params_missing() {
    let result = Tpm2BPublicBuilder::new().with_type(TPM2_ALG_RSA).build();
    assert!(matches!(result, Err(WrapperErrorKind::ParamsMissing)));
}

#[test]
fn public_area_with_unsupported_type_is_rejected() {
    let result = Tpm2BPublicBuilder::new()
        .with_type(TPM2_ALG_KEYEDHASH)
        .with_parms(PublicParmsUnion::RsaDetail(rsa_parms()))
        .build();
    assert!(matches!(result, Err(WrapperErrorKind::UnsupportedParam)));
}

#[test]
fn public_area_without_type_is_rejected() {
    let result =
        Tpm2BPublicBuilder::new().with_parms(PublicParmsUnion::RsaDetail(rsa_parms())).build();
    assert!(matches!(result, Err(WrapperErrorKind::UnsupportedParam)));
}

#[test]
fn rsa_public_area_build_populates_every_field() {
    let parms = rsa_parms();
    let attrs = ObjectAttributes::new_fixed_signing_key();
    let public = Tpm2BPublicBuilder::new()
        .with_type(TPM2_ALG_RSA)
        .with_name_alg(TPM2_ALG_SHA256)
        .with_object_attributes(attrs)
        .with_auth_policy(4, [0xAB; 64])
        .with_parms(PublicParmsUnion::RsaDetail(parms))
        .build()
        .unwrap();
    assert_eq!(public.size, TPMT_PUBLIC_SIZE);
    assert_eq!(public.public_area.type_, TPM2_ALG_RSA);
    assert_eq!(public.public_area.name_alg, TPM2_ALG_SHA256);
    assert_eq!(public.public_area.object_attributes, attrs.0);
    assert_eq!(public.public_area.auth_policy.size, 4);
    assert_eq!(public.public_area.auth_policy.buffer, vec![0xAB; 64]);
    assert!(matches!(public.public_area.parameters, TpmuPublicParms::RsaDetail(p) if p == parms));
    match &public.public_area.unique {
        TpmuPublicId::Rsa(k) => {
            assert_eq!(k.size, 0);
            assert_eq!(k.buffer, vec![0u8; 512]);
        },
        _ => panic!("expected an RSA unique value"),
    }
}

#[test]
fn rsa_public_area_with_ecc_unique_is_inconsistent() {
    let point = tpm2_structs::tpm2b::TpmsEccPoint::zeroed();
    let result = Tpm2BPublicBuilder::new()
        .with_type(TPM2_ALG_RSA)
        .with_parms(PublicParmsUnion::RsaDetail(rsa_parms()))
        .with_unique(PublicIdUnion::Ecc(Box::new(point)))
        .build();
    assert!(matches!(result, Err(WrapperErrorKind::InconsistentParams)));
}

#[test]
fn ecc_public_area_build_defaults_unique_to_zero_point() {
    let parms = ecc_parms();
    let public = Tpm2BPublicBuilder::new()
        .with_type(TPM2_ALG_ECC)
        .with_name_alg(TPM2_ALG_SHA256)
        .with_parms(PublicParmsUnion::EccDetail(parms))
        .build()
        .unwrap();
    assert_eq!(public.public_area.type_, TPM2_ALG_ECC);
    assert!(matches!(public.public_area.parameters, TpmuPublicParms::EccDetail(p) if p == parms));
    match &public.public_area.unique {
        TpmuPublicId::Ecc(pt) => {
            assert_eq!(pt.x.size, 0);
            assert_eq!(pt.y.size, 0);
            assert_eq!(pt.x.buffer, vec![0u8; 128]);
            assert_eq!(pt.y.buffer, vec![0u8; 128]);
        },
        _ => panic!("expected an ECC unique value"),
    }
}

#[test]
fn new_builder_has_null_defaults() {
    let builder = Tpm2BPublicBuilder::new();
    assert!(builder.type_.is_none());
    assert_eq!(builder.name_alg, TPM2_ALG_NULL);
    assert_eq!(builder.object_attributes.0, 0);
    assert_eq!(builder.auth_policy.size, 0);
    assert!(builder.parameters.is_none());
    assert!(builder.unique.is_none());
}

#[test]
fn create_restricted_decryption_rsa_public_sets_storage_attributes() {
    let public =
        create_restricted_decryption_rsa_public(Cipher::aes_256_cfb(), 2048, 0).unwrap();
    assert_eq!(public.public_area.type_, TPM2_ALG_RSA);
    assert_eq!(public.public_area.name_alg, TPM2_ALG_SHA256);
    let attrs = ObjectAttributes(public.public_area.object_attributes);
    assert!(attrs.fixed_tpm());
    assert!(attrs.fixed_parent());
    assert!(attrs.sensitive_data_origin());
    assert!(attrs.user_with_auth());
    assert!(attrs.decrypt());
    assert!(!attrs.sign_encrypt());
    assert!(attrs.restricted());
    assert_eq!(public.public_area.object_attributes, 0x0003_0072);
    match public.public_area.parameters {
        TpmuPublicParms::RsaDetail(parms) => {
            assert_eq!(parms.symmetric.algorithm, 0x0006);
            assert_eq!(parms.symmetric.key_bits, 256);
            assert_eq!(parms.scheme.scheme, TPM2_ALG_NULL);
            assert_eq!(parms.key_bits, 2048);
        },
        _ => panic!("expected RSA parameters"),
    }
}

#[test]
fn create_unrestricted_signing_rsa_public_sets_signing_attributes() {
    let public = create_unrestricted_signing_rsa_public(
        AsymSchemeUnion::RSASSA(HashingAlgorithm::Sha256),
        2048,
        0,
    )
    .unwrap();
    let attrs = ObjectAttributes(public.public_area.object_attributes);
    assert!(attrs.sign_encrypt());
    assert!(!attrs.decrypt());
    assert!(!attrs.restricted());
    assert_eq!(public.public_area.object_attributes, 0x0004_0072);
}

#[test]
fn create_unrestricted_signing_rsa_public_rejects_decryption_scheme() {
    let result = create_unrestricted_signing_rsa_public(AsymSchemeUnion::RSAES, 2048, 0);
    assert!(matches!(result, Err(WrapperErrorKind::InconsistentParams)));
}

#[test]
fn create_unrestricted_signing_ecc_public_records_curve() {
    let public = create_unrestricted_signing_ecc_public(
        AsymSchemeUnion::ECDSA(HashingAlgorithm::Sha256),
        EllipticCurve::NistP256,
    )
    .unwrap();
    assert_eq!(public.public_area.type_, TPM2_ALG_ECC);
    match public.public_area.parameters {
        TpmuPublicParms::EccDetail(parms) => assert_eq!(parms.curve_id, 0x0003),
        _ => panic!("expected ECC parameters"),
    }
}

#[test]
fn from_public_extracts_rsa_unique() {
    let public = create_unrestricted_signing_rsa_public(
        AsymSchemeUnion::RSASSA(HashingAlgorithm::Sha256),
        2048,
        0,
    )
    .unwrap();
    match PublicIdUnion::from_public(&public).unwrap() {
        PublicIdUnion::Rsa(k) => {
            assert_eq!(k.size, 0);
            assert_eq!(k.buffer.len(), 512);
        },
        _ => panic!("expected an RSA unique value"),
    }
}

#[test]
fn object_type_matches_parms_variant() {
    assert_eq!(PublicParmsUnion::RsaDetail(rsa_parms()).object_type(), TPM2_ALG_RSA);
    assert_eq!(PublicParmsUnion::EccDetail(ecc_parms()).object_type(), TPM2_ALG_ECC);
    assert_eq!(PublicParmsUnion::SymDetail(Cipher::aes_256_cfb()).object_type(), 0x0025);
}

#[test]
fn sym_detail_lowers_to_symcipher_parms() {
    let lowered = PublicParmsUnion::SymDetail(Cipher::aes_256_cfb()).to_tpmu();
    match lowered {
        TpmuPublicParms::SymDetail(parms) => {
            assert_eq!(
                parms.sym,
                TpmtSymDefObject { algorithm: 0x0006, key_bits: 256, mode: 0x0043 }
            );
        },
        _ => panic!("expected symmetric-cipher parameters"),
    }
}

#[test]
fn object_attribute_presets_set_their_bits() {
    let parent = ObjectAttributes::new_fixed_parent_key();
    assert!(parent.fixed_tpm());
    assert!(parent.fixed_parent());
    assert!(parent.sensitive_data_origin());
    assert!(parent.user_with_auth());
    assert!(parent.decrypt());
    assert!(parent.restricted());
    assert!(!parent.sign_encrypt());
    assert!(!parent.st_clear());
    assert!(!parent.admin_with_policy());
    assert!(!parent.no_da());
    assert!(!parent.encrypted_duplication());

    let signer = ObjectAttributes::new_fixed_signing_key();
    assert!(signer.sign_encrypt());
    assert!(!signer.decrypt());
    assert!(!signer.restricted());
}

#[test]
fn object_attribute_setters_flip_single_bits() {
    let mut attrs = ObjectAttributes(0);
    attrs.set_no_da(true);
    assert_eq!(attrs.0, 0x0000_0400);
    attrs.set_encrypted_duplication(true);
    assert_eq!(attrs.0, 0x0000_0C00);
    attrs.set_no_da(false);
    assert_eq!(attrs.0, 0x0000_0800);
    attrs.set_st_clear(true);
    attrs.set_admin_with_policy(true);
    assert!(attrs.st_clear());
    assert!(attrs.admin_with_policy());
    assert!(attrs.encrypted_duplication());
    assert!(!attrs.no_da());
}
