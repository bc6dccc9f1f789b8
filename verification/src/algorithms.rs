//! Algorithm identifiers, handle constants, and the algorithm-specifier
//! values (hash algorithms, elliptic curves, symmetric ciphers) that the
//! builders and parsers consume as opaque numeric tags.

use vstd::prelude::*;
use crate::errors::WrapperErrorKind;

verus! {

// TPM 2.0 algorithm identifiers (TPM2_ALG_ID values).
pub const TPM2_ALG_ERROR: u16 = 0x0000;
pub const TPM2_ALG_RSA: u16 = 0x0001;
pub const TPM2_ALG_SHA1: u16 = 0x0004;
pub const TPM2_ALG_AES: u16 = 0x0006;
pub const TPM2_ALG_KEYEDHASH: u16 = 0x0008;
pub const TPM2_ALG_XOR: u16 = 0x000A;
pub const TPM2_ALG_SHA256: u16 = 0x000B;
pub const TPM2_ALG_SHA384: u16 = 0x000C;
pub const TPM2_ALG_SHA512: u16 = 0x000D;
pub const TPM2_ALG_NULL: u16 = 0x0010;
pub const TPM2_ALG_SM3_256: u16 = 0x0012;
pub const TPM2_ALG_SM4: u16 = 0x0013;
pub const TPM2_ALG_RSASSA: u16 = 0x0014;
pub const TPM2_ALG_RSAES: u16 = 0x0015;
pub const TPM2_ALG_RSAPSS: u16 = 0x0016;
pub const TPM2_ALG_OAEP: u16 = 0x0017;
pub const TPM2_ALG_ECDSA: u16 = 0x0018;
pub const TPM2_ALG_ECDH: u16 = 0x0019;
pub const TPM2_ALG_ECDAA: u16 = 0x001A;
pub const TPM2_ALG_SM2: u16 = 0x001B;
pub const TPM2_ALG_ECSCHNORR: u16 = 0x001C;
pub const TPM2_ALG_ECMQV: u16 = 0x001D;
pub const TPM2_ALG_ECC: u16 = 0x0023;
pub const TPM2_ALG_SYMCIPHER: u16 = 0x0025;
pub const TPM2_ALG_CAMELLIA: u16 = 0x0026;
pub const TPM2_ALG_SHA3_256: u16 = 0x0027;
pub const TPM2_ALG_SHA3_384: u16 = 0x0028;
pub const TPM2_ALG_SHA3_512: u16 = 0x0029;
pub const TPM2_ALG_CFB: u16 = 0x0043;

// TPM 2.0 elliptic-curve identifiers (TPM2_ECC_CURVE values).
pub const TPM2_ECC_NIST_P192: u16 = 0x0001;
pub const TPM2_ECC_NIST_P224: u16 = 0x0002;
pub const TPM2_ECC_NIST_P256: u16 = 0x0003;
pub const TPM2_ECC_NIST_P384: u16 = 0x0004;
pub const TPM2_ECC_NIST_P521: u16 = 0x0005;
pub const TPM2_ECC_BN_P256: u16 = 0x0010;
pub const TPM2_ECC_BN_P638: u16 = 0x0011;
pub const TPM2_ECC_SM2_P256: u16 = 0x0020;

/// A hash algorithm recognized by the TPM, as used in scheme descriptors,
/// name computation, and PCR banks.
#[derive(Clone, Copy, Debug, PartialEq, Eq, Structural, Hash)]
pub enum HashingAlgorithm {
    Sha1,
    Sha256,
    Sha384,
    Sha512,
    Sm3_256,
    Sha3_256,
    Sha3_384,
    Sha3_512,
}

/// The algorithm identifier that stands for the hash algorithm on the wire.
pub open spec fn spec_hash_alg_id(alg: HashingAlgorithm) -> u16 {
    match alg {
        HashingAlgorithm::Sha1 => TPM2_ALG_SHA1,
        HashingAlgorithm::Sha256 => TPM2_ALG_SHA256,
        HashingAlgorithm::Sha384 => TPM2_ALG_SHA384,
        HashingAlgorithm::Sha512 => TPM2_ALG_SHA512,
        HashingAlgorithm::Sm3_256 => TPM2_ALG_SM3_256,
        HashingAlgorithm::Sha3_256 => TPM2_ALG_SHA3_256,
        HashingAlgorithm::Sha3_384 => TPM2_ALG_SHA3_384,
        HashingAlgorithm::Sha3_512 => TPM2_ALG_SHA3_512,
    }
}

/// The hash algorithm encoded by an identifier, if the identifier is
/// recognized.
pub open spec fn spec_hash_alg_of_id(id: u16) -> Option<HashingAlgorithm> {
    if id == TPM2_ALG_SHA1 {
        Some(HashingAlgorithm::Sha1)
    } else if id == TPM2_ALG_SHA256 {
        Some(HashingAlgorithm::Sha256)
    } else if id == TPM2_ALG_SHA384 {
        Some(HashingAlgorithm::Sha384)
    } else if id == TPM2_ALG_SHA512 {
        Some(HashingAlgorithm::Sha512)
    } else if id == TPM2_ALG_SM3_256 {
        Some(HashingAlgorithm::Sm3_256)
    } else if id == TPM2_ALG_SHA3_256 {
        Some(HashingAlgorithm::Sha3_256)
    } else if id == TPM2_ALG_SHA3_384 {
        Some(HashingAlgorithm::Sha3_384)
    } else if id == TPM2_ALG_SHA3_512 {
        Some(HashingAlgorithm::Sha3_512)
    } else {
        None
    }
}

impl HashingAlgorithm {
    /// The wire identifier of this hash algorithm.
    pub fn alg_id(self) -> (id: u16)
        ensures
            id == spec_hash_alg_id(self),
    {
        match self {
            HashingAlgorithm::Sha1 => TPM2_ALG_SHA1,
            HashingAlgorithm::Sha256 => TPM2_ALG_SHA256,
            HashingAlgorithm::Sha384 => TPM2_ALG_SHA384,
            HashingAlgorithm::Sha512 => TPM2_ALG_SHA512,
            HashingAlgorithm::Sm3_256 => TPM2_ALG_SM3_256,
            HashingAlgorithm::Sha3_256 => TPM2_ALG_SHA3_256,
            HashingAlgorithm::Sha3_384 => TPM2_ALG_SHA3_384,
            HashingAlgorithm::Sha3_512 => TPM2_ALG_SHA3_512,
        }
    }

    /// Decode a wire identifier into a hash algorithm; an unrecognized
    /// identifier is reported as `InvalidParam`.
    pub fn try_from_alg_id(id: u16) -> (r: Result<HashingAlgorithm, WrapperErrorKind>)
        ensures
            r matches Ok(alg) ==> spec_hash_alg_of_id(id) == Some(alg),
            r is Err <==> spec_hash_alg_of_id(id) is None,
            r matches Err(e) ==> e == WrapperErrorKind::InvalidParam,
    {
        if id == TPM2_ALG_SHA1 {
            Ok(HashingAlgorithm::Sha1)
        } else if id == TPM2_ALG_SHA256 {
            Ok(HashingAlgorithm::Sha256)
        } else if id == TPM2_ALG_SHA384 {
            Ok(HashingAlgorithm::Sha384)
        } else if id == TPM2_ALG_SHA512 {
            Ok(HashingAlgorithm::Sha512)
        } else if id == TPM2_ALG_SM3_256 {
            Ok(HashingAlgorithm::Sm3_256)
        } else if id == TPM2_ALG_SHA3_256 {
            Ok(HashingAlgorithm::Sha3_256)
        } else if id == TPM2_ALG_SHA3_384 {
            Ok(HashingAlgorithm::Sha3_384)
        } else if id == TPM2_ALG_SHA3_512 {
            Ok(HashingAlgorithm::Sha3_512)
        } else {
            Err(WrapperErrorKind::InvalidParam)
        }
    }
}

/// Decoding an identifier and re-encoding the algorithm round-trips, and
/// re-encoding is the inverse of encoding.
pub proof fn lemma_hash_alg_id_round_trip(alg: HashingAlgorithm, id: u16)
    ensures
        spec_hash_alg_of_id(spec_hash_alg_id(alg)) == Some(alg),
        spec_hash_alg_of_id(id) matches Some(a) ==> spec_hash_alg_id(a) == id,
{
}

/// An elliptic curve recognized by the TPM.
#[derive(Clone, Copy, Debug, PartialEq, Eq, Structural, Hash)]
pub enum EllipticCurve {
    NistP192,
    NistP224,
    NistP256,
    NistP384,
    NistP521,
    BnP256,
    BnP638,
    Sm2P256,
}

/// The curve identifier that stands for the curve on the wire.
pub open spec fn spec_curve_id(curve: EllipticCurve) -> u16 {
    match curve {
        EllipticCurve::NistP192 => TPM2_ECC_NIST_P192,
        EllipticCurve::NistP224 => TPM2_ECC_NIST_P224,
        EllipticCurve::NistP256 => TPM2_ECC_NIST_P256,
        EllipticCurve::NistP384 => TPM2_ECC_NIST_P384,
        EllipticCurve::NistP521 => TPM2_ECC_NIST_P521,
        EllipticCurve::BnP256 => TPM2_ECC_BN_P256,
        EllipticCurve::BnP638 => TPM2_ECC_BN_P638,
        EllipticCurve::Sm2P256 => TPM2_ECC_SM2_P256,
    }
}

impl EllipticCurve {
    /// The wire identifier of this curve.
    pub fn curve_id(self) -> (id: u16)
        ensures
            id == spec_curve_id(self),
    {
        match self {
            EllipticCurve::NistP192 => TPM2_ECC_NIST_P192,
            EllipticCurve::NistP224 => TPM2_ECC_NIST_P224,
            EllipticCurve::NistP256 => TPM2_ECC_NIST_P256,
            EllipticCurve::NistP384 => TPM2_ECC_NIST_P384,
            EllipticCurve::NistP521 => TPM2_ECC_NIST_P521,
            EllipticCurve::BnP256 => TPM2_ECC_BN_P256,
            EllipticCurve::BnP638 => TPM2_ECC_BN_P638,
            EllipticCurve::Sm2P256 => TPM2_ECC_SM2_P256,
        }
    }
}

/// A symmetric cipher specification: algorithm, key size in bits, and
/// block mode, each as its wire value.
#[derive(Clone, Copy, Debug, PartialEq, Eq, Structural, Hash)]
pub struct Cipher {
    pub algorithm: u16,
    pub key_bits: u16,
    pub mode: u16,
}

impl Cipher {
    /// 256-bit AES in CFB mode, the cipher commonly attached to storage
    /// keys.
    pub fn aes_256_cfb() -> (c: Cipher)
        ensures
            c == (Cipher { algorithm: TPM2_ALG_AES, key_bits: 256u16, mode: TPM2_ALG_CFB }),
    {
        Cipher { algorithm: TPM2_ALG_AES, key_bits: 256, mode: TPM2_ALG_CFB }
    }

    /// 128-bit AES in CFB mode.
    pub fn aes_128_cfb() -> (c: Cipher)
        ensures
            c == (Cipher { algorithm: TPM2_ALG_AES, key_bits: 128u16, mode: TPM2_ALG_CFB }),
    {
        Cipher { algorithm: TPM2_ALG_AES, key_bits: 128, mode: TPM2_ALG_CFB }
    }
}

} // verus!
