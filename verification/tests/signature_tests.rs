use tpm2_structs::algorithms::HashingAlgorithm;
use tpm2_structs::errors::WrapperErrorKind;
use tpm2_structs::schemes::AsymSchemeUnion;
use tpm2_structs::signatures::{
    Signature, SignatureData, TpmsSignatureEcdsa, TpmsSignatureRsa, TpmtSignature, TpmuSignature,
};
use tpm2_structs::tpm2b::{Tpm2bEccParameter, Tpm2bPublicKeyRsa};

fn rsa_signature(bytes: Vec<u8>) -> Signature {
    Signature {
        scheme: AsymSchemeUnion::RSASSA(HashingAlgorithm::Sha256),
        signature: SignatureData::RsaSignature(bytes),
    }
}

#[test]
fn rsa_signature_round_trip_is_byte_identical() {
    let payload: Vec<u8> = (0u8..32).collect();
    let raw = TpmtSignature::try_from(rsa_signature(payload.clone())).unwrap();
    assert_eq!(raw.sig_alg, 0x0014);
    let back = Signature::try_from(raw).unwrap();
    assert_eq!(back.scheme, AsymSchemeUnion::RSASSA(HashingAlgorithm::Sha256));
    match back.signature {
        SignatureData::RsaSignature(bytes) => assert_eq!(bytes, payload),
        _ => panic!("expected an RSA payload"),
    }
}

#[test]
fn ecdsa_signature_round_trip_is_byte_identical() {
    let r: Vec<u8> = vec![1, 2, 3, 4];
    let s: Vec<u8> = vec![5, 6, 7];
    let sig = Signature {
        scheme: AsymSchemeUnion::ECDSA(HashingAlgorithm::Sha256),
        signature: SignatureData::EcdsaSignature { r: r.clone(), s: s.clone() },
    };
    let raw = TpmtSignature::try_from(sig).unwrap();
    assert_eq!(raw.sig_alg, 0x0018);
    let back = Signature::try_from(raw).unwrap();
    assert_eq!(back.scheme, AsymSchemeUnion::ECDSA(HashingAlgorithm::Sha256));
    match back.signature {
        SignatureData::EcdsaSignature { r: r2, s: s2 } => {
            assert_eq!(r2, r);
            assert_eq!(s2, s);
        },
        _ => panic!("expected an ECDSA payload"),
    }
}

#[test]
fn rsa_payload_of_exactly_512_bytes_converts() {
    let raw = TpmtSignature::try_from(rsa_signature(vec![7u8; 512])).unwrap();
    match raw.signature {
        TpmuSignature::Rsa(p) => {
            assert_eq!(p.sig.size, 512);
            assert_eq!(p.sig.buffer.len(), 512);
            assert_eq!(p.sig.buffer, vec![7u8; 512]);
        },
        _ => panic!("expected an RSA payload"),
    }
}

#[test]
fn rsa_payload_of_513_bytes_is_wrong_param_size() {
    let result = TpmtSignature::try_from(rsa_signature(vec![7u8; 513]));
    assert!(matches!(result, Err(WrapperErrorKind::WrongParamSize)));
}

#[test]
fn ecc_component_boundaries_are_checked() {
    let ok = Signature {
        scheme: AsymSchemeUnion::ECDSA(HashingAlgorithm::Sha256),
        signature: SignatureData::EcdsaSignature { r: vec![1u8; 128], s: vec![2u8; 128] },
    };
    assert!(TpmtSignature::try_from(ok).is_ok());
    let r_too_long = Signature {
        scheme: AsymSchemeUnion::ECDSA(HashingAlgorithm::Sha256),
        signature: SignatureData::EcdsaSignature { r: vec![1u8; 129], s: vec![2u8; 4] },
    };
    assert!(matches!(TpmtSignature::try_from(r_too_long), Err(WrapperErrorKind::WrongParamSize)));
    let s_too_long = Signature {
        scheme: AsymSchemeUnion::ECDSA(HashingAlgorithm::Sha256),
        signature: SignatureData::EcdsaSignature { r: vec![1u8; 4], s: vec![2u8; 129] },
    };
    assert!(matches!(TpmtSignature::try_from(s_too_long), Err(WrapperErrorKind::WrongParamSize)));
}

#[test]
fn conversion_zero_pads_the_fixed_buffer() {
    let raw = TpmtSignature::try_from(rsa_signature(vec![0xFF; 3])).unwrap();
    match raw.signature {
        TpmuSignature::Rsa(p) => {
            assert_eq!(p.sig.size, 3);
            assert_eq!(p.sig.buffer.len(), 512);
            assert_eq!(&p.sig.buffer[..3], &[0xFF, 0xFF, 0xFF]);
            assert!(p.sig.buffer[3..].iter().all(|b| *b == 0));
            assert_eq!(p.hash, 0x000B);
        },
        _ => panic!("expected an RSA payload"),
    }
}

#[test]
fn decryption_scheme_cannot_sign() {
    let sig = Signature {
        scheme: AsymSchemeUnion::RSAES,
        signature: SignatureData::RsaSignature(vec![1, 2, 3]),
    };
    assert!(matches!(TpmtSignature::try_from(sig), Err(WrapperErrorKind::InconsistentParams)));
}

#[test]
fn mismatched_payload_shape_is_inconsistent() {
    let rsa_scheme_with_pair = Signature {
        scheme: AsymSchemeUnion::RSASSA(HashingAlgorithm::Sha256),
        signature: SignatureData::EcdsaSignature { r: vec![1], s: vec![2] },
    };
    assert!(matches!(
        TpmtSignature::try_from(rsa_scheme_with_pair),
        Err(WrapperErrorKind::InconsistentParams)
    ));
    let ecdsa_scheme_with_bytes = Signature {
        scheme: AsymSchemeUnion::ECDSA(HashingAlgorithm::Sha256),
        signature: SignatureData::RsaSignature(vec![1, 2]),
    };
    assert!(matches!(
        TpmtSignature::try_from(ecdsa_scheme_with_bytes),
        Err(WrapperErrorKind::InconsistentParams)
    ));
}

#[test]
fn unimplemented_signing_scheme_is_unsupported() {
    let sig = Signature {
        scheme: AsymSchemeUnion::ECDAA(HashingAlgorithm::Sha256, 0),
        signature: SignatureData::EcdsaSignature { r: vec![1], s: vec![2] },
    };
    assert!(matches!(TpmtSignature::try_from(sig), Err(WrapperErrorKind::UnsupportedParam)));
}

fn raw_rsa(sig_alg: u16, hash: u16, size: u16, buffer: Vec<u8>) -> TpmtSignature {
    TpmtSignature {
        sig_alg,
        signature: TpmuSignature::Rsa(TpmsSignatureRsa {
            hash,
            sig: Tpm2bPublicKeyRsa { size, buffer },
        }),
    }
}

#[test]
fn parsing_rsapss_truncates_to_declared_size() {
    let mut buffer = vec![0u8; 512];
    buffer[0] = 9;
    buffer[1] = 8;
    let sig = Signature::try_from(raw_rsa(0x0016, 0x000B, 2, buffer)).unwrap();
    assert_eq!(sig.scheme, AsymSchemeUnion::RSAPSS(HashingAlgorithm::Sha256));
    match sig.signature {
        SignatureData::RsaSignature(bytes) => assert_eq!(bytes, vec![9, 8]),
        _ => panic!("expected an RSA payload"),
    }
}

#[test]
fn parsing_rejects_size_beyond_buffer() {
    let result = Signature::try_from(raw_rsa(0x0014, 0x000B, 513, vec![0u8; 512]));
    assert!(matches!(result, Err(WrapperErrorKind::InconsistentParams)));
}

#[test]
fn parsing_rejects_unknown_hash_identifier() {
    let result = Signature::try_from(raw_rsa(0x0014, 0x7777, 0, vec![0u8; 512]));
    assert!(matches!(result, Err(WrapperErrorKind::InvalidParam)));
}

#[test]
fn parsing_recognized_but_unimplemented_tags_is_unsupported() {
    for tag in [0x001Bu16, 0x001C, 0x001A] {
        let result = Signature::try_from(raw_rsa(tag, 0x000B, 0, vec![0u8; 512]));
        assert!(matches!(result, Err(WrapperErrorKind::UnsupportedParam)));
    }
}

#[test]
fn parsing_unknown_tag_is_inconsistent() {
    let result = Signature::try_from(raw_rsa(0x7FFF, 0x000B, 0, vec![0u8; 512]));
    assert!(matches!(result, Err(WrapperErrorKind::InconsistentParams)));
}

#[test]
fn parsing_tag_with_mismatched_payload_is_inconsistent() {
    let raw = TpmtSignature {
        sig_alg: 0x0014,
        signature: TpmuSignature::Ecdsa(TpmsSignatureEcdsa {
            hash: 0x000B,
            signature_r: Tpm2bEccParameter { size: 0, buffer: vec![0u8; 128] },
            signature_s: Tpm2bEccParameter { size: 0, buffer: vec![0u8; 128] },
        }),
    };
    assert!(matches!(Signature::try_from(raw), Err(WrapperErrorKind::InconsistentParams)));
}

#[test]
fn parsing_ecdsa_checks_each_component_size() {
    let raw = TpmtSignature {
        sig_alg: 0x0018,
        signature: TpmuSignature::Ecdsa(TpmsSignatureEcdsa {
            hash: 0x000B,
            signature_r: Tpm2bEccParameter { size: 129, buffer: vec![0u8; 128] },
            signature_s: Tpm2bEccParameter { size: 0, buffer: vec![0u8; 128] },
        }),
    };
    assert!(matches!(Signature::try_from(raw), Err(WrapperErrorKind::InconsistentParams)));
}
