//! Asymmetric signatures: the typed signature value, the tagged wire
//! structure, and the conversions between them.

use vstd::prelude::*;
use crate::algorithms::{
    HashingAlgorithm, spec_hash_alg_id, spec_hash_alg_of_id, TPM2_ALG_ECDAA, TPM2_ALG_ECDSA,
    TPM2_ALG_ECSCHNORR, TPM2_ALG_RSAPSS, TPM2_ALG_RSASSA, TPM2_ALG_SM2,
};
use crate::errors::WrapperErrorKind;
use crate::schemes::{AsymSchemeUnion, spec_is_decryption};
use crate::tpm2b::{
    prefix_bytes, spec_zero_padded, zero_padded_vec, Tpm2bEccParameter, Tpm2bPublicKeyRsa,
    TPM2_MAX_ECC_KEY_BYTES, TPM2_MAX_RSA_KEY_BYTES,
};

verus! {

/// An RSA signature on the wire: the hash algorithm it was made with and
/// the sized signature buffer.
#[derive(Clone, Debug)]
pub struct TpmsSignatureRsa {
    pub hash: u16,
    pub sig: Tpm2bPublicKeyRsa,
}

/// An ECDSA signature on the wire: the hash algorithm and the two sized
/// component buffers.
#[derive(Clone, Debug)]
pub struct TpmsSignatureEcdsa {
    pub hash: u16,
    pub signature_r: Tpm2bEccParameter,
    pub signature_s: Tpm2bEccParameter,
}

/// The signature payload of the wire structure.  On the wire this is a
/// union selected by the sibling algorithm tag; here it is a tagged value,
/// and a tag that does not match its payload is rejected when parsed.
#[derive(Clone, Debug)]
pub enum TpmuSignature {
    Rsa(TpmsSignatureRsa),
    Ecdsa(TpmsSignatureEcdsa),
}

/// A signature as exchanged with the TPM: algorithm tag plus payload.
#[derive(Clone, Debug)]
pub struct TpmtSignature {
    pub sig_alg: u16,
    pub signature: TpmuSignature,
}

/// The payload of a typed signature: a single byte sequence for the RSA
/// schemes, or an (r, s) pair for ECDSA.
#[derive(Debug)]
pub enum SignatureData {
    RsaSignature(Vec<u8>),
    EcdsaSignature { r: Vec<u8>, s: Vec<u8> },
}

/// A typed asymmetric signature: the scheme it was created with and the
/// signature payload.
#[derive(Debug)]
pub struct Signature {
    pub scheme: AsymSchemeUnion,
    pub signature: SignatureData,
}

/// The error that parsing a wire signature reports, if any.  The RSA-SSA,
/// RSA-PSS and ECDSA tags are parsed; their payload must match the tag
/// (`InconsistentParams` otherwise), carry a recognized hash algorithm
/// (`InvalidParam` otherwise), and declare a size no larger than its
/// buffer (`InconsistentParams` otherwise, checked after the hash).  The
/// SM2, EC-Schnorr and ECDAA tags are recognized but unimplemented
/// (`UnsupportedParam`); every other tag is `InconsistentParams`.
pub open spec fn spec_signature_parse_err(t: TpmtSignature) -> Option<WrapperErrorKind> {
    if t.sig_alg == TPM2_ALG_RSASSA || t.sig_alg == TPM2_ALG_RSAPSS {
        match t.signature {
            TpmuSignature::Rsa(p) => if spec_hash_alg_of_id(p.hash) is None {
                Some(WrapperErrorKind::InvalidParam)
            } else if p.sig.size > p.sig.buffer@.len() {
                Some(WrapperErrorKind::InconsistentParams)
            } else {
                None
            },
            _ => Some(WrapperErrorKind::InconsistentParams),
        }
    } else if t.sig_alg == TPM2_ALG_ECDSA {
        match t.signature {
            TpmuSignature::Ecdsa(p) => if spec_hash_alg_of_id(p.hash) is None {
                Some(WrapperErrorKind::InvalidParam)
            } else if p.signature_r.size > p.signature_r.buffer@.len() {
                Some(WrapperErrorKind::InconsistentParams)
            } else if p.signature_s.size > p.signature_s.buffer@.len() {
                Some(WrapperErrorKind::InconsistentParams)
            } else {
                None
            },
            _ => Some(WrapperErrorKind::InconsistentParams),
        }
    } else if t.sig_alg == TPM2_ALG_SM2 || t.sig_alg == TPM2_ALG_ECSCHNORR || t.sig_alg
        == TPM2_ALG_ECDAA {
        Some(WrapperErrorKind::UnsupportedParam)
    } else {
        Some(WrapperErrorKind::InconsistentParams)
    }
}

/// How a successfully parsed signature relates to the wire structure it
/// came from: the scheme carries the tag and the decoded hash algorithm,
/// and the payload is the buffer truncated to its declared size.
pub open spec fn spec_signature_parse_ok(t: TpmtSignature, sig: Signature) -> bool {
    if t.sig_alg == TPM2_ALG_RSASSA {
        &&& t.signature matches TpmuSignature::Rsa(p)
        &&& sig.scheme == AsymSchemeUnion::RSASSA(spec_hash_alg_of_id(p.hash)->Some_0)
        &&& (sig.signature matches SignatureData::RsaSignature(bytes) && bytes@
            == p.sig.buffer@.take(p.sig.size as int))
    } else if t.sig_alg == TPM2_ALG_RSAPSS {
        &&& t.signature matches TpmuSignature::Rsa(p)
        &&& sig.scheme == AsymSchemeUnion::RSAPSS(spec_hash_alg_of_id(p.hash)->Some_0)
        &&& (sig.signature matches SignatureData::RsaSignature(bytes) && bytes@
            == p.sig.buffer@.take(p.sig.size as int))
    } else if t.sig_alg == TPM2_ALG_ECDSA {
        &&& t.signature matches TpmuSignature::Ecdsa(p)
        &&& sig.scheme == AsymSchemeUnion::ECDSA(spec_hash_alg_of_id(p.hash)->Some_0)
        &&& (sig.signature matches SignatureData::EcdsaSignature { r, s } && r@
            == p.signature_r.buffer@.take(p.signature_r.size as int) && s@
            == p.signature_s.buffer@.take(p.signature_s.size as int))
    } else {
        false
    }
}

impl Signature {
    /// Parse a typed signature from a wire signature structure.
    ///
    /// The wire payload is a tagged variant, so the algorithm tag is
    /// checked against the payload actually present rather than trusted
    /// to select a union field.
    pub fn try_from(tss_signature: TpmtSignature) -> (r: Result<Signature, WrapperErrorKind>)
        ensures
            r is Err <==> spec_signature_parse_err(tss_signature) is Some,
            r matches Err(e) ==> spec_signature_parse_err(tss_signature) == Some(e),
            r matches Ok(sig) ==> spec_signature_parse_ok(tss_signature, sig),
    {
        if tss_signature.sig_alg == TPM2_ALG_RSASSA {
            let p = match tss_signature.signature {
                TpmuSignature::Rsa(p) => p,
                _ => {
                    return Err(WrapperErrorKind::InconsistentParams);
                },
            };
            let hash_alg = match HashingAlgorithm::try_from_alg_id(p.hash) {
                Ok(h) => h,
                Err(e) => {
                    return Err(e);
                },
            };
            let buf_size = p.sig.size as usize;
            if buf_size > p.sig.buffer.len() {
                return Err(WrapperErrorKind::InconsistentParams);
            }
            let signature = prefix_bytes(&p.sig.buffer, buf_size);
            Ok(Signature {
                scheme: AsymSchemeUnion::RSASSA(hash_alg),
                signature: SignatureData::RsaSignature(signature),
            })
        } else if tss_signature.sig_alg == TPM2_ALG_RSAPSS {
            let p = match tss_signature.signature {
                TpmuSignature::Rsa(p) => p,
                _ => {
                    return Err(WrapperErrorKind::InconsistentParams);
                },
            };
            let hash_alg = match HashingAlgorithm::try_from_alg_id(p.hash) {
                Ok(h) => h,
                Err(e) => {
                    return Err(e);
                },
            };
            let buf_size = p.sig.size as usize;
            if buf_size > p.sig.buffer.len() {
                return Err(WrapperErrorKind::InconsistentParams);
            }
            let signature = prefix_bytes(&p.sig.buffer, buf_size);
            Ok(Signature {
                scheme: AsymSchemeUnion::RSAPSS(hash_alg),
                signature: SignatureData::RsaSignature(signature),
            })
        } else if tss_signature.sig_alg == TPM2_ALG_ECDSA {
            let p = match tss_signature.signature {
                TpmuSignature::Ecdsa(p) => p,
                _ => {
                    return Err(WrapperErrorKind::InconsistentParams);
                },
            };
            let hash_alg = match HashingAlgorithm::try_from_alg_id(p.hash) {
                Ok(h) => h,
                Err(e) => {
                    return Err(e);
                },
            };
            let r_size = p.signature_r.size as usize;
            if r_size > p.signature_r.buffer.len() {
                return Err(WrapperErrorKind::InconsistentParams);
            }
            let r = prefix_bytes(&p.signature_r.buffer, r_size);
            let s_size = p.signature_s.size as usize;
            if s_size > p.signature_s.buffer.len() {
                return Err(WrapperErrorKind::InconsistentParams);
            }
            let s = prefix_bytes(&p.signature_s.buffer, s_size);
            Ok(Signature {
                scheme: AsymSchemeUnion::ECDSA(hash_alg),
                signature: SignatureData::EcdsaSignature { r, s },
            })
        } else if tss_signature.sig_alg == TPM2_ALG_SM2 || tss_signature.sig_alg
            == TPM2_ALG_ECSCHNORR || tss_signature.sig_alg == TPM2_ALG_ECDAA {
            Err(WrapperErrorKind::UnsupportedParam)
        } else {
            Err(WrapperErrorKind::InconsistentParams)
        }
    }
}

/// The error that converting a typed signature to the wire structure
/// reports, if any.  A decryption scheme cannot sign
/// (`InconsistentParams`); the payload shape must match the scheme family
/// (`InconsistentParams`); a payload component larger than its fixed
/// buffer is `WrongParamSize`; and a signing scheme outside RSA-SSA,
/// RSA-PSS and ECDSA is `UnsupportedParam`.
pub open spec fn spec_signature_convert_err(sig: Signature) -> Option<WrapperErrorKind> {
    if spec_is_decryption(sig.scheme) {
        Some(WrapperErrorKind::InconsistentParams)
    } else {
        match sig.scheme {
            AsymSchemeUnion::RSASSA(_) | AsymSchemeUnion::RSAPSS(_) => match sig.signature {
                SignatureData::RsaSignature(bytes) => if bytes@.len() > TPM2_MAX_RSA_KEY_BYTES {
                    Some(WrapperErrorKind::WrongParamSize)
                } else {
                    None
                },
                _ => Some(WrapperErrorKind::InconsistentParams),
            },
            AsymSchemeUnion::ECDSA(_) => match sig.signature {
                SignatureData::EcdsaSignature { r, s } => if r@.len() > TPM2_MAX_ECC_KEY_BYTES {
                    Some(WrapperErrorKind::WrongParamSize)
                } else if s@.len() > TPM2_MAX_ECC_KEY_BYTES {
                    Some(WrapperErrorKind::WrongParamSize)
                } else {
                    None
                },
                _ => Some(WrapperErrorKind::InconsistentParams),
            },
            _ => Some(WrapperErrorKind::UnsupportedParam),
        }
    }
}

/// How a successfully converted wire signature relates to the typed
/// signature it came from: the tag and hash identifier encode the scheme,
/// each sized buffer records the payload's true length, and the payload
/// is zero-padded into the fixed buffer.
pub open spec fn spec_signature_convert_ok(sig: Signature, t: TpmtSignature) -> bool {
    match sig.scheme {
        AsymSchemeUnion::RSASSA(h) => {
            &&& t.sig_alg == TPM2_ALG_RSASSA
            &&& (t.signature matches TpmuSignature::Rsa(p) && p.hash == spec_hash_alg_id(h)
                && (sig.signature matches SignatureData::RsaSignature(bytes) && p.sig.size
                == bytes@.len() && p.sig.buffer@ == spec_zero_padded(
                bytes@,
                TPM2_MAX_RSA_KEY_BYTES as int,
            )))
        },
        AsymSchemeUnion::RSAPSS(h) => {
            &&& t.sig_alg == TPM2_ALG_RSAPSS
            &&& (t.signature matches TpmuSignature::Rsa(p) && p.hash == spec_hash_alg_id(h)
                && (sig.signature matches SignatureData::RsaSignature(bytes) && p.sig.size
                == bytes@.len() && p.sig.buffer@ == spec_zero_padded(
                bytes@,
                TPM2_MAX_RSA_KEY_BYTES as int,
            )))
        },
        AsymSchemeUnion::ECDSA(h) => {
            &&& t.sig_alg == TPM2_ALG_ECDSA
            &&& (t.signature matches TpmuSignature::Ecdsa(p) && p.hash == spec_hash_alg_id(h)
                && (sig.signature matches SignatureData::EcdsaSignature { r, s }
                && p.signature_r.size == r@.len() && p.signature_r.buffer@ == spec_zero_padded(
                r@,
                TPM2_MAX_ECC_KEY_BYTES as int,
            ) && p.signature_s.size == s@.len() && p.signature_s.buffer@ == spec_zero_padded(
                s@,
                TPM2_MAX_ECC_KEY_BYTES as int,
            )))
        },
        _ => false,
    }
}

impl TpmtSignature {
    /// Convert a typed signature into the wire signature structure,
    /// zero-padding each payload component into its fixed buffer.
    pub fn try_from(sig: Signature) -> (r: Result<TpmtSignature, WrapperErrorKind>)
        ensures
            r is Err <==> spec_signature_convert_err(sig) is Some,
            r matches Err(e) ==> spec_signature_convert_err(sig) == Some(e),
            r matches Ok(t) ==> spec_signature_convert_ok(sig, t),
    {
        if sig.scheme.is_decryption() {
            return Err(WrapperErrorKind::InconsistentParams);
        }
        match sig.scheme {
            AsymSchemeUnion::RSASSA(hash_alg) => {
                let signature = match sig.signature {
                    SignatureData::RsaSignature(signature) => signature,
                    SignatureData::EcdsaSignature { .. } => {
                        return Err(WrapperErrorKind::InconsistentParams);
                    },
                };
                let len = signature.len();
                if len > TPM2_MAX_RSA_KEY_BYTES {
                    return Err(WrapperErrorKind::WrongParamSize);
                }
                let buffer = zero_padded_vec(&signature, TPM2_MAX_RSA_KEY_BYTES);
                Ok(TpmtSignature {
                    sig_alg: TPM2_ALG_RSASSA,
                    signature: TpmuSignature::Rsa(TpmsSignatureRsa {
                        hash: hash_alg.alg_id(),
                        sig: Tpm2bPublicKeyRsa { size: len as u16, buffer },
                    }),
                })
            },
            AsymSchemeUnion::RSAPSS(hash_alg) => {
                let signature = match sig.signature {
                    SignatureData::RsaSignature(signature) => signature,
                    SignatureData::EcdsaSignature { .. } => {
                        return Err(WrapperErrorKind::InconsistentParams);
                    },
                };
                let len = signature.len();
                if len > TPM2_MAX_RSA_KEY_BYTES {
                    return Err(WrapperErrorKind::WrongParamSize);
                }
                let buffer = zero_padded_vec(&signature, TPM2_MAX_RSA_KEY_BYTES);
                Ok(TpmtSignature {
                    sig_alg: TPM2_ALG_RSAPSS,
                    signature: TpmuSignature::Rsa(TpmsSignatureRsa {
                        hash: hash_alg.alg_id(),
                        sig: Tpm2bPublicKeyRsa { size: len as u16, buffer },
                    }),
                })
            },
            AsymSchemeUnion::ECDSA(hash_alg) => {
                let (r, s) = match sig.signature {
                    SignatureData::EcdsaSignature { r, s } => (r, s),
                    SignatureData::RsaSignature(_) => {
                        return Err(WrapperErrorKind::InconsistentParams);
                    },
                };
                let r_len = r.len();
                if r_len > TPM2_MAX_ECC_KEY_BYTES {
                    return Err(WrapperErrorKind::WrongParamSize);
                }
                let r_buffer = zero_padded_vec(&r, TPM2_MAX_ECC_KEY_BYTES);
                let s_len = s.len();
                if s_len > TPM2_MAX_ECC_KEY_BYTES {
                    return Err(WrapperErrorKind::WrongParamSize);
                }
                let s_buffer = zero_padded_vec(&s, TPM2_MAX_ECC_KEY_BYTES);
                Ok(TpmtSignature {
                    sig_alg: TPM2_ALG_ECDSA,
                    signature: TpmuSignature::Ecdsa(TpmsSignatureEcdsa {
                        hash: hash_alg.alg_id(),
                        signature_r: Tpm2bEccParameter { size: r_len as u16, buffer: r_buffer },
                        signature_s: Tpm2bEccParameter { size: s_len as u16, buffer: s_buffer },
                    }),
                })
            },
            _ => Err(WrapperErrorKind::UnsupportedParam),
        }
    }
}

/// Converting a typed signature to the wire structure and parsing it back
/// returns the same scheme and a byte-identical payload.  The round trip
/// succeeds exactly when the conversion does: parsing what the conversion
/// produced never fails.
pub proof fn lemma_signature_round_trip(sig: Signature, t: TpmtSignature, back: Signature)
    requires
        spec_signature_convert_err(sig) is None,
        spec_signature_convert_ok(sig, t),
        spec_signature_parse_ok(t, back),
    ensures
        spec_signature_parse_err(t) is None,
        back.scheme == sig.scheme,
        sig.signature matches SignatureData::RsaSignature(bytes) ==> (back.signature matches
            SignatureData::RsaSignature(b2) && b2@ == bytes@),
        sig.signature matches SignatureData::EcdsaSignature { r, s } ==> (back.signature matches
            SignatureData::EcdsaSignature { r: r2, s: s2 } && r2@ == r@ && s2@ == s@),
{
    match sig.scheme {
        AsymSchemeUnion::RSASSA(h) | AsymSchemeUnion::RSAPSS(h) => {
            let bytes = sig.signature->RsaSignature_0;
            let p = t.signature->Rsa_0;
            crate::algorithms::lemma_hash_alg_id_round_trip(h, p.hash);
            assert(p.sig.buffer@.take(p.sig.size as int) =~= bytes@);
        },
        AsymSchemeUnion::ECDSA(h) => {
            let r = sig.signature->EcdsaSignature_r;
            let s = sig.signature->EcdsaSignature_s;
            let p = t.signature->Ecdsa_0;
            crate::algorithms::lemma_hash_alg_id_round_trip(h, p.hash);
            assert(p.signature_r.buffer@.take(p.signature_r.size as int) =~= r@);
            assert(p.signature_s.buffer@.take(p.signature_s.size as int) =~= s@);
        },
        _ => {},
    }
}

} // verus!
