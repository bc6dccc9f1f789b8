//! Asymmetric scheme descriptors and the tagged scheme structures that the
//! parameter builders consume.

use vstd::prelude::*;
use crate::algorithms::{
    HashingAlgorithm, spec_hash_alg_id, TPM2_ALG_ECDH, TPM2_ALG_ECMQV, TPM2_ALG_RSASSA,
    TPM2_ALG_RSAPSS, TPM2_ALG_ECDSA, TPM2_ALG_ECDAA, TPM2_ALG_SM2, TPM2_ALG_ECSCHNORR,
    TPM2_ALG_RSAES, TPM2_ALG_OAEP, TPM2_ALG_NULL,
};

verus! {

/// The scheme-parameter payload of a tagged scheme structure.  On the wire
/// this payload is a union selected by the sibling scheme identifier; here
/// it is a tagged value, so the payload shape is always known.
#[derive(Clone, Copy, Debug, PartialEq, Eq, Structural, Hash)]
pub enum TpmuAsymScheme {
    /// A payload carrying one hash-algorithm identifier.
    Hash { hash_alg: u16 },
    /// The payload of an anonymous-attestation scheme: a hash-algorithm
    /// identifier and a counter.
    Ecdaa { hash_alg: u16, count: u16 },
    /// The empty payload of the RSAES scheme.
    Empty,
}

/// A tagged RSA scheme structure: the scheme identifier and its payload.
#[derive(Clone, Copy, Debug, PartialEq, Eq, Structural, Hash)]
pub struct TpmtRsaScheme {
    pub scheme: u16,
    pub details: TpmuAsymScheme,
}

/// A tagged ECC scheme structure: the scheme identifier and its payload.
#[derive(Clone, Copy, Debug, PartialEq, Eq, Structural, Hash)]
pub struct TpmtEccScheme {
    pub scheme: u16,
    pub details: TpmuAsymScheme,
}

/// A tagged asymmetric scheme: one variant per scheme the TPM recognizes,
/// each carrying the hash algorithm it is parameterized by (and, for ECDAA,
/// a counter).  `AnySig` is the placeholder scheme of restricted decryption
/// keys, whose optional hash defaults to the null algorithm.
#[derive(Clone, Copy, Debug, PartialEq, Eq, Structural, Hash)]
pub enum AsymSchemeUnion {
    ECDH(HashingAlgorithm),
    ECMQV(HashingAlgorithm),
    RSASSA(HashingAlgorithm),
    RSAPSS(HashingAlgorithm),
    ECDSA(HashingAlgorithm),
    ECDAA(HashingAlgorithm, u16),
    SM2(HashingAlgorithm),
    ECSchnorr(HashingAlgorithm),
    RSAES,
    RSAOAEP(HashingAlgorithm),
    AnySig(Option<HashingAlgorithm>),
}

/// The algorithm identifier of each scheme variant.
pub open spec fn spec_scheme_id(s: AsymSchemeUnion) -> u16 {
    match s {
        AsymSchemeUnion::ECDH(_) => TPM2_ALG_ECDH,
        AsymSchemeUnion::ECMQV(_) => TPM2_ALG_ECMQV,
        AsymSchemeUnion::RSASSA(_) => TPM2_ALG_RSASSA,
        AsymSchemeUnion::RSAPSS(_) => TPM2_ALG_RSAPSS,
        AsymSchemeUnion::ECDSA(_) => TPM2_ALG_ECDSA,
        AsymSchemeUnion::ECDAA(_, _) => TPM2_ALG_ECDAA,
        AsymSchemeUnion::SM2(_) => TPM2_ALG_SM2,
        AsymSchemeUnion::ECSchnorr(_) => TPM2_ALG_ECSCHNORR,
        AsymSchemeUnion::RSAES => TPM2_ALG_RSAES,
        AsymSchemeUnion::RSAOAEP(_) => TPM2_ALG_OAEP,
        AsymSchemeUnion::AnySig(_) => TPM2_ALG_NULL,
    }
}

/// The scheme-parameter payload of each scheme variant.
pub open spec fn spec_scheme_details(s: AsymSchemeUnion) -> TpmuAsymScheme {
    match s {
        AsymSchemeUnion::ECDAA(hash_alg, count) => TpmuAsymScheme::Ecdaa {
            hash_alg: spec_hash_alg_id(hash_alg),
            count,
        },
        AsymSchemeUnion::RSAES => TpmuAsymScheme::Empty,
        AsymSchemeUnion::AnySig(hash_alg) => TpmuAsymScheme::Hash {
            hash_alg: match hash_alg {
                Some(h) => spec_hash_alg_id(h),
                None => TPM2_ALG_NULL,
            },
        },
        AsymSchemeUnion::ECDH(hash_alg) => TpmuAsymScheme::Hash {
            hash_alg: spec_hash_alg_id(hash_alg),
        },
        AsymSchemeUnion::ECMQV(hash_alg) => TpmuAsymScheme::Hash {
            hash_alg: spec_hash_alg_id(hash_alg),
        },
        AsymSchemeUnion::RSASSA(hash_alg) => TpmuAsymScheme::Hash {
            hash_alg: spec_hash_alg_id(hash_alg),
        },
        AsymSchemeUnion::RSAPSS(hash_alg) => TpmuAsymScheme::Hash {
            hash_alg: spec_hash_alg_id(hash_alg),
        },
        AsymSchemeUnion::ECDSA(hash_alg) => TpmuAsymScheme::Hash {
            hash_alg: spec_hash_alg_id(hash_alg),
        },
        AsymSchemeUnion::SM2(hash_alg) => TpmuAsymScheme::Hash {
            hash_alg: spec_hash_alg_id(hash_alg),
        },
        AsymSchemeUnion::ECSchnorr(hash_alg) => TpmuAsymScheme::Hash {
            hash_alg: spec_hash_alg_id(hash_alg),
        },
        AsymSchemeUnion::RSAOAEP(hash_alg) => TpmuAsymScheme::Hash {
            hash_alg: spec_hash_alg_id(hash_alg),
        },
    }
}

/// Whether the scheme is a signing scheme.
pub open spec fn spec_is_signing(s: AsymSchemeUnion) -> bool {
    match s {
        AsymSchemeUnion::ECDH(_)
        | AsymSchemeUnion::ECMQV(_)
        | AsymSchemeUnion::RSAOAEP(_)
        | AsymSchemeUnion::RSAES => false,
        AsymSchemeUnion::RSASSA(_)
        | AsymSchemeUnion::RSAPSS(_)
        | AsymSchemeUnion::ECDSA(_)
        | AsymSchemeUnion::ECDAA(_, _)
        | AsymSchemeUnion::SM2(_)
        | AsymSchemeUnion::ECSchnorr(_)
        | AsymSchemeUnion::AnySig(_) => true,
    }
}

/// Whether the scheme is a decryption scheme.
pub open spec fn spec_is_decryption(s: AsymSchemeUnion) -> bool {
    match s {
        AsymSchemeUnion::ECDH(_)
        | AsymSchemeUnion::ECMQV(_)
        | AsymSchemeUnion::RSAOAEP(_)
        | AsymSchemeUnion::RSAES => true,
        AsymSchemeUnion::RSASSA(_)
        | AsymSchemeUnion::RSAPSS(_)
        | AsymSchemeUnion::ECDSA(_)
        | AsymSchemeUnion::ECDAA(_, _)
        | AsymSchemeUnion::SM2(_)
        | AsymSchemeUnion::ECSchnorr(_)
        | AsymSchemeUnion::AnySig(_) => false,
    }
}

/// Whether the scheme belongs to the RSA key family.  The `AnySig`
/// placeholder belongs to neither family.
pub open spec fn spec_is_rsa(s: AsymSchemeUnion) -> bool {
    match s {
        AsymSchemeUnion::RSASSA(_)
        | AsymSchemeUnion::RSAOAEP(_)
        | AsymSchemeUnion::RSAPSS(_)
        | AsymSchemeUnion::RSAES => true,
        AsymSchemeUnion::ECDH(_)
        | AsymSchemeUnion::ECMQV(_)
        | AsymSchemeUnion::ECDSA(_)
        | AsymSchemeUnion::ECDAA(_, _)
        | AsymSchemeUnion::SM2(_)
        | AsymSchemeUnion::ECSchnorr(_)
        | AsymSchemeUnion::AnySig(_) => false,
    }
}

/// Whether the scheme belongs to the ECC key family.  The `AnySig`
/// placeholder belongs to neither family.
pub open spec fn spec_is_ecc(s: AsymSchemeUnion) -> bool {
    match s {
        AsymSchemeUnion::RSASSA(_)
        | AsymSchemeUnion::RSAOAEP(_)
        | AsymSchemeUnion::RSAPSS(_)
        | AsymSchemeUnion::RSAES
        | AsymSchemeUnion::AnySig(_) => false,
        AsymSchemeUnion::ECDH(_)
        | AsymSchemeUnion::ECMQV(_)
        | AsymSchemeUnion::ECDSA(_)
        | AsymSchemeUnion::ECDAA(_, _)
        | AsymSchemeUnion::SM2(_)
        | AsymSchemeUnion::ECSchnorr(_) => true,
    }
}

impl AsymSchemeUnion {
    /// The algorithm identifier of this scheme.
    pub fn scheme_id(self) -> (id: u16)
        ensures
            id == spec_scheme_id(self),
    {
        match self {
            AsymSchemeUnion::ECDH(_) => TPM2_ALG_ECDH,
            AsymSchemeUnion::ECMQV(_) => TPM2_ALG_ECMQV,
            AsymSchemeUnion::RSASSA(_) => TPM2_ALG_RSASSA,
            AsymSchemeUnion::RSAPSS(_) => TPM2_ALG_RSAPSS,
            AsymSchemeUnion::ECDSA(_) => TPM2_ALG_ECDSA,
            AsymSchemeUnion::ECDAA(_, _) => TPM2_ALG_ECDAA,
            AsymSchemeUnion::SM2(_) => TPM2_ALG_SM2,
            AsymSchemeUnion::ECSchnorr(_) => TPM2_ALG_ECSCHNORR,
            AsymSchemeUnion::RSAES => TPM2_ALG_RSAES,
            AsymSchemeUnion::RSAOAEP(_) => TPM2_ALG_OAEP,
            AsymSchemeUnion::AnySig(_) => TPM2_ALG_NULL,
        }
    }

    /// Pack the scheme's hash algorithm (and counter, for ECDAA) into the
    /// tagged scheme-parameter payload.
    pub fn get_details(self) -> (details: TpmuAsymScheme)
        ensures
            details == spec_scheme_details(self),
    {
        match self {
            AsymSchemeUnion::ECDH(hash_alg) => TpmuAsymScheme::Hash {
                hash_alg: hash_alg.alg_id(),
            },
            AsymSchemeUnion::ECMQV(hash_alg) => TpmuAsymScheme::Hash {
                hash_alg: hash_alg.alg_id(),
            },
            AsymSchemeUnion::RSASSA(hash_alg) => TpmuAsymScheme::Hash {
                hash_alg: hash_alg.alg_id(),
            },
            AsymSchemeUnion::RSAPSS(hash_alg) => TpmuAsymScheme::Hash {
                hash_alg: hash_alg.alg_id(),
            },
            AsymSchemeUnion::ECDSA(hash_alg) => TpmuAsymScheme::Hash {
                hash_alg: hash_alg.alg_id(),
            },
            AsymSchemeUnion::ECDAA(hash_alg, count) => TpmuAsymScheme::Ecdaa {
                hash_alg: hash_alg.alg_id(),
                count,
            },
            AsymSchemeUnion::SM2(hash_alg) => TpmuAsymScheme::Hash {
                hash_alg: hash_alg.alg_id(),
            },
            AsymSchemeUnion::ECSchnorr(hash_alg) => TpmuAsymScheme::Hash {
                hash_alg: hash_alg.alg_id(),
            },
            AsymSchemeUnion::RSAES => TpmuAsymScheme::Empty,
            AsymSchemeUnion::RSAOAEP(hash_alg) => TpmuAsymScheme::Hash {
                hash_alg: hash_alg.alg_id(),
            },
            AsymSchemeUnion::AnySig(hash_alg) => TpmuAsymScheme::Hash {
                hash_alg: match hash_alg {
                    Some(h) => h.alg_id(),
                    None => TPM2_ALG_NULL,
                },
            },
        }
    }

    /// Combine identifier and payload into the RSA scheme structure.
    pub fn get_rsa_scheme_struct(self) -> (r: TpmtRsaScheme)
        ensures
            r == (TpmtRsaScheme {
                scheme: spec_scheme_id(self),
                details: spec_scheme_details(self),
            }),
    {
        let scheme = self.scheme_id();
        let details = self.get_details();
        TpmtRsaScheme { scheme, details }
    }

    /// Combine identifier and payload into the ECC scheme structure.
    pub fn get_ecc_scheme_struct(self) -> (r: TpmtEccScheme)
        ensures
            r == (TpmtEccScheme {
                scheme: spec_scheme_id(self),
                details: spec_scheme_details(self),
            }),
    {
        let scheme = self.scheme_id();
        let details = self.get_details();
        TpmtEccScheme { scheme, details }
    }

    /// Whether this scheme is a signing scheme.
    pub fn is_signing(self) -> (b: bool)
        ensures
            b == spec_is_signing(self),
    {
        match self {
            AsymSchemeUnion::ECDH(_)
            | AsymSchemeUnion::ECMQV(_)
            | AsymSchemeUnion::RSAOAEP(_)
            | AsymSchemeUnion::RSAES => false,
            AsymSchemeUnion::RSASSA(_)
            | AsymSchemeUnion::RSAPSS(_)
            | AsymSchemeUnion::ECDSA(_)
            | AsymSchemeUnion::ECDAA(_, _)
            | AsymSchemeUnion::SM2(_)
            | AsymSchemeUnion::ECSchnorr(_)
            | AsymSchemeUnion::AnySig(_) => true,
        }
    }

    /// Whether this scheme is a decryption scheme.
    pub fn is_decryption(self) -> (b: bool)
        ensures
            b == spec_is_decryption(self),
    {
        match self {
            AsymSchemeUnion::ECDH(_)
            | AsymSchemeUnion::ECMQV(_)
            | AsymSchemeUnion::RSAOAEP(_)
            | AsymSchemeUnion::RSAES => true,
            AsymSchemeUnion::RSASSA(_)
            | AsymSchemeUnion::RSAPSS(_)
            | AsymSchemeUnion::ECDSA(_)
            | AsymSchemeUnion::ECDAA(_, _)
            | AsymSchemeUnion::SM2(_)
            | AsymSchemeUnion::ECSchnorr(_)
            | AsymSchemeUnion::AnySig(_) => false,
        }
    }

    /// Whether this scheme belongs to the RSA key family.
    pub fn is_rsa(self) -> (b: bool)
        ensures
            b == spec_is_rsa(self),
    {
        match self {
            AsymSchemeUnion::RSASSA(_)
            | AsymSchemeUnion::RSAOAEP(_)
            | AsymSchemeUnion::RSAPSS(_)
            | AsymSchemeUnion::RSAES => true,
            AsymSchemeUnion::ECDH(_)
            | AsymSchemeUnion::ECMQV(_)
            | AsymSchemeUnion::ECDSA(_)
            | AsymSchemeUnion::ECDAA(_, _)
            | AsymSchemeUnion::SM2(_)
            | AsymSchemeUnion::ECSchnorr(_)
            | AsymSchemeUnion::AnySig(_) => false,
        }
    }

    /// Whether this scheme belongs to the ECC key family.
    pub fn is_ecc(self) -> (b: bool)
        ensures
            b == spec_is_ecc(self),
    {
        match self {
            AsymSchemeUnion::RSASSA(_)
            | AsymSchemeUnion::RSAOAEP(_)
            | AsymSchemeUnion::RSAPSS(_)
            | AsymSchemeUnion::RSAES
            | AsymSchemeUnion::AnySig(_) => false,
            AsymSchemeUnion::ECDH(_)
            | AsymSchemeUnion::ECMQV(_)
            | AsymSchemeUnion::ECDSA(_)
            | AsymSchemeUnion::ECDAA(_, _)
            | AsymSchemeUnion::SM2(_)
            | AsymSchemeUnion::ECSchnorr(_) => true,
        }
    }
}

/// Every scheme is either a signing scheme or a decryption scheme, never
/// both; and it belongs to at most one key family, with the `AnySig`
/// placeholder belonging to neither.
pub proof fn lemma_scheme_classification(s: AsymSchemeUnion)
    ensures
        spec_is_signing(s) != spec_is_decryption(s),
        !(spec_is_rsa(s) && spec_is_ecc(s)),
        s matches AsymSchemeUnion::AnySig(_) ==> !spec_is_rsa(s) && !spec_is_ecc(s),
        !(s matches AsymSchemeUnion::AnySig(_)) ==> spec_is_rsa(s) != spec_is_ecc(s),
{
}

} // verus!
