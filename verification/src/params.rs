//! Parameter blocks for RSA and ECC keys, and the builders that validate
//! and assemble them under the TPM 2.0 consistency rules linking the
//! restricted/signing/decryption flags to the permitted schemes.

use vstd::prelude::*;
use crate::algorithms::{
    Cipher, EllipticCurve, spec_curve_id, TPM2_ALG_ECDAA, TPM2_ALG_ECDH, TPM2_ALG_ECDSA,
    TPM2_ALG_ECMQV, TPM2_ALG_ECSCHNORR, TPM2_ALG_NULL, TPM2_ALG_OAEP, TPM2_ALG_RSAES,
    TPM2_ALG_RSAPSS, TPM2_ALG_RSASSA, TPM2_ALG_SM2,
};
use crate::errors::WrapperErrorKind;
use crate::schemes::{AsymSchemeUnion, spec_scheme_details, spec_scheme_id, TpmtEccScheme, TpmtRsaScheme};
use crate::sym::TpmtSymDefObject;

verus! {

/// The RSA parameter block: symmetric definition, scheme, key size in
/// bits, and public exponent.
#[derive(Clone, Copy, Debug, PartialEq, Eq, Structural, Hash)]
pub struct TpmsRsaParms {
    pub symmetric: TpmtSymDefObject,
    pub scheme: TpmtRsaScheme,
    pub key_bits: u16,
    pub exponent: u32,
}

/// A key-derivation scheme: identifier plus the hash word of its
/// parameter union.
#[derive(Clone, Copy, Debug, PartialEq, Eq, Structural, Hash)]
pub struct TpmtKdfScheme {
    pub scheme: u16,
    pub details: u16,
}

/// The ECC parameter block: symmetric definition, scheme, curve, and key
/// derivation scheme.
#[derive(Clone, Copy, Debug, PartialEq, Eq, Structural, Hash)]
pub struct TpmsEccParms {
    pub symmetric: TpmtSymDefObject,
    pub scheme: TpmtEccScheme,
    pub curve_id: u16,
    pub kdf: TpmtKdfScheme,
}

/// The null symmetric definition, used when a key carries no symmetric
/// cipher.
pub open spec fn spec_null_sym_def_object() -> TpmtSymDefObject {
    TpmtSymDefObject { algorithm: TPM2_ALG_NULL, key_bits: 0u16, mode: 0u16 }
}

/// Supported sizes for an RSA key modulus.
pub const RSA_KEY_SIZES: [u16; 4] = [1024, 2048, 3072, 4096];

/// Builder for RSA parameter blocks.
#[derive(Clone, Copy, Debug, PartialEq, Eq, Structural, Hash)]
pub struct TpmsRsaParmsBuilder {
    /// Symmetric cipher to be used in conjunction with the key.
    pub symmetric: Option<TpmtSymDefObject>,
    /// Asymmetric scheme to be used for key operations.
    pub scheme: Option<AsymSchemeUnion>,
    /// Size of the key, in bits.
    pub key_bits: u16,
    /// Public exponent of the key; zero defaults to 2^16 + 1.
    pub exponent: u32,
    /// Whether the key shall be used for signing.
    pub for_signing: bool,
    /// Whether the key shall be used for decryption.
    pub for_decryption: bool,
    /// Whether the key is restricted.
    pub restricted: bool,
}

/// Whether the supplied scheme identifier is compatible with the
/// signing/decryption/restricted flags of an RSA key.
pub open spec fn spec_rsa_scheme_allowed(
    scheme_id: u16,
    for_signing: bool,
    for_decryption: bool,
    restricted: bool,
) -> bool {
    if restricted {
        &&& for_signing ==> scheme_id == TPM2_ALG_RSAPSS || scheme_id == TPM2_ALG_RSASSA
        &&& for_decryption ==> scheme_id == TPM2_ALG_NULL
    } else {
        &&& for_signing && for_decryption ==> scheme_id == TPM2_ALG_NULL
        &&& for_signing ==> scheme_id == TPM2_ALG_RSAPSS || scheme_id == TPM2_ALG_RSASSA
            || scheme_id == TPM2_ALG_NULL
        &&& for_decryption ==> scheme_id == TPM2_ALG_RSAES || scheme_id == TPM2_ALG_OAEP
            || scheme_id == TPM2_ALG_NULL
    }
}

/// What building an RSA parameter block returns.  A restricted decryption
/// key must carry a symmetric cipher and every other key must not; the
/// scheme is mandatory; and the scheme identifier must be compatible with
/// the flags.  On success the block carries the supplied values, with a
/// missing symmetric cipher defaulted to the null definition.
pub open spec fn spec_rsa_parms_build(
    b: TpmsRsaParmsBuilder,
) -> Result<TpmsRsaParms, WrapperErrorKind> {
    if b.restricted && b.for_decryption && b.symmetric is None {
        Err(WrapperErrorKind::ParamsMissing)
    } else if !(b.restricted && b.for_decryption) && b.symmetric is Some {
        Err(WrapperErrorKind::InconsistentParams)
    } else if b.scheme is None {
        Err(WrapperErrorKind::ParamsMissing)
    } else {
        let scheme_id = spec_scheme_id(b.scheme->Some_0);
        if !spec_rsa_scheme_allowed(scheme_id, b.for_signing, b.for_decryption, b.restricted) {
            Err(WrapperErrorKind::InconsistentParams)
        } else {
            Ok(TpmsRsaParms {
                symmetric: match b.symmetric {
                    Some(sym) => sym,
                    None => spec_null_sym_def_object(),
                },
                scheme: TpmtRsaScheme {
                    scheme: scheme_id,
                    details: spec_scheme_details(b.scheme->Some_0),
                },
                key_bits: b.key_bits,
                exponent: b.exponent,
            })
        }
    }
}

impl TpmsRsaParmsBuilder {
    /// Parameters for a restricted decryption key (the storage-key
    /// pattern): the symmetric cipher is mandatory, the scheme is the
    /// non-signing placeholder, and the flags are decrypt-only and
    /// restricted.
    pub fn new_restricted_decryption_key(
        symmetric: TpmtSymDefObject,
        key_bits: u16,
        exponent: u32,
    ) -> (b: TpmsRsaParmsBuilder)
        ensures
            b == (TpmsRsaParmsBuilder {
                symmetric: Some(symmetric),
                scheme: Some(AsymSchemeUnion::AnySig(None)),
                key_bits,
                exponent,
                for_signing: false,
                for_decryption: true,
                restricted: true,
            }),
    {
        TpmsRsaParmsBuilder {
            symmetric: Some(symmetric),
            scheme: Some(AsymSchemeUnion::AnySig(None)),
            key_bits,
            exponent,
            for_signing: false,
            for_decryption: true,
            restricted: true,
        }
    }

    /// Parameters for an unrestricted signing key: the caller supplies the
    /// scheme, and the flags are sign-only and unrestricted.
    pub fn new_unrestricted_signing_key(
        scheme: AsymSchemeUnion,
        key_bits: u16,
        exponent: u32,
    ) -> (b: TpmsRsaParmsBuilder)
        ensures
            b == (TpmsRsaParmsBuilder {
                symmetric: None,
                scheme: Some(scheme),
                key_bits,
                exponent,
                for_signing: true,
                for_decryption: false,
                restricted: false,
            }),
    {
        TpmsRsaParmsBuilder {
            symmetric: None,
            scheme: Some(scheme),
            key_bits,
            exponent,
            for_signing: true,
            for_decryption: false,
            restricted: false,
        }
    }

    /// Build the RSA parameter block, validating the flag/scheme
    /// combination.
    pub fn build(self) -> (r: Result<TpmsRsaParms, WrapperErrorKind>)
        ensures
            r == spec_rsa_parms_build(self),
    {
        if self.restricted && self.for_decryption {
            if self.symmetric.is_none() {
                return Err(WrapperErrorKind::ParamsMissing);
            }
        } else if self.symmetric.is_some() {
            return Err(WrapperErrorKind::InconsistentParams);
        }
        let symmetric = match self.symmetric {
            Some(sym) => sym,
            None => TpmtSymDefObject { algorithm: TPM2_ALG_NULL, key_bits: 0, mode: 0 },
        };

        let scheme_union = match self.scheme {
            Some(scheme_union) => scheme_union,
            None => {
                return Err(WrapperErrorKind::ParamsMissing);
            },
        };
        let scheme = scheme_union.get_rsa_scheme_struct();
        if self.restricted {
            if self.for_signing && scheme.scheme != TPM2_ALG_RSAPSS
                && scheme.scheme != TPM2_ALG_RSASSA {
                return Err(WrapperErrorKind::InconsistentParams);
            }
            if self.for_decryption && scheme.scheme != TPM2_ALG_NULL {
                return Err(WrapperErrorKind::InconsistentParams);
            }
        } else {
            if self.for_decryption && self.for_signing && scheme.scheme != TPM2_ALG_NULL {
                return Err(WrapperErrorKind::InconsistentParams);
            }
            if self.for_signing && scheme.scheme != TPM2_ALG_RSAPSS
                && scheme.scheme != TPM2_ALG_RSASSA && scheme.scheme != TPM2_ALG_NULL {
                return Err(WrapperErrorKind::InconsistentParams);
            }
            if self.for_decryption && scheme.scheme != TPM2_ALG_RSAES
                && scheme.scheme != TPM2_ALG_OAEP && scheme.scheme != TPM2_ALG_NULL {
                return Err(WrapperErrorKind::InconsistentParams);
            }
        }
        Ok(TpmsRsaParms { symmetric, scheme, key_bits: self.key_bits, exponent: self.exponent })
    }
}

impl Default for TpmsRsaParmsBuilder {
    /// The default builder has every field unset, a zero key size and
    /// exponent, and every flag cleared.
    fn default() -> (b: TpmsRsaParmsBuilder)
        ensures
            b == (TpmsRsaParmsBuilder {
                symmetric: None,
                scheme: None,
                key_bits: 0u16,
                exponent: 0u32,
                for_signing: false,
                for_decryption: false,
                restricted: false,
            }),
    {
        TpmsRsaParmsBuilder {
            symmetric: None,
            scheme: None,
            key_bits: 0,
            exponent: 0,
            for_signing: false,
            for_decryption: false,
            restricted: false,
        }
    }
}

/// Builder for ECC parameter blocks.  Unlike the RSA builder, the scheme
/// is not optional here: every ECC key names its scheme outright.
#[derive(Clone, Copy, Debug, PartialEq, Eq, Structural, Hash)]
pub struct TpmsEccParmsBuilder {
    /// Symmetric cipher to be used in conjunction with the key.
    pub symmetric: Option<Cipher>,
    /// Asymmetric scheme to be used for key operations.
    pub scheme: AsymSchemeUnion,
    /// Curve to be used with the key.
    pub curve: EllipticCurve,
    /// Whether the key shall be used for signing.
    pub for_signing: bool,
    /// Whether the key shall be used for decryption.
    pub for_decryption: bool,
    /// Whether the key is restricted.
    pub restricted: bool,
}

/// Whether the supplied scheme identifier is compatible with the
/// signing/decryption flags of an ECC key, and whether the curve's demand
/// for an anonymous-attestation scheme is met.
pub open spec fn spec_ecc_scheme_allowed(
    scheme_id: u16,
    for_signing: bool,
    for_decryption: bool,
    curve: EllipticCurve,
) -> bool {
    &&& for_signing ==> scheme_id == TPM2_ALG_ECDSA || scheme_id == TPM2_ALG_ECDAA
        || scheme_id == TPM2_ALG_SM2 || scheme_id == TPM2_ALG_ECSCHNORR
    &&& for_decryption ==> scheme_id == TPM2_ALG_SM2 || scheme_id == TPM2_ALG_ECDH
        || scheme_id == TPM2_ALG_ECMQV || scheme_id == TPM2_ALG_NULL
    &&& curve == EllipticCurve::BnP256 || curve == EllipticCurve::BnP638
        ==> scheme_id == TPM2_ALG_ECDAA
}

/// What building an ECC parameter block returns.  The symmetric-cipher
/// rule is the same as for RSA keys; an ECC key can never both sign and
/// decrypt; the scheme must be compatible with the flags; and the
/// Barreto-Naehrig curves demand the anonymous-attestation scheme.
pub open spec fn spec_ecc_parms_build(
    b: TpmsEccParmsBuilder,
) -> Result<TpmsEccParms, WrapperErrorKind> {
    if b.restricted && b.for_decryption && b.symmetric is None {
        Err(WrapperErrorKind::ParamsMissing)
    } else if !(b.restricted && b.for_decryption) && b.symmetric is Some {
        Err(WrapperErrorKind::InconsistentParams)
    } else if b.for_decryption && b.for_signing {
        Err(WrapperErrorKind::InconsistentParams)
    } else if !spec_ecc_scheme_allowed(
        spec_scheme_id(b.scheme),
        b.for_signing,
        b.for_decryption,
        b.curve,
    ) {
        Err(WrapperErrorKind::InconsistentParams)
    } else {
        Ok(TpmsEccParms {
            symmetric: match b.symmetric {
                Some(cipher) => TpmtSymDefObject {
                    algorithm: cipher.algorithm,
                    key_bits: cipher.key_bits,
                    mode: cipher.mode,
                },
                None => spec_null_sym_def_object(),
            },
            scheme: TpmtEccScheme {
                scheme: spec_scheme_id(b.scheme),
                details: spec_scheme_details(b.scheme),
            },
            curve_id: spec_curve_id(b.curve),
            kdf: TpmtKdfScheme { scheme: TPM2_ALG_NULL, details: 0u16 },
        })
    }
}

impl TpmsEccParmsBuilder {
    /// Parameters for a restricted decryption key (a storage key).
    pub fn new_restricted_decryption_key(symmetric: Cipher, curve: EllipticCurve) -> (b:
        TpmsEccParmsBuilder)
        ensures
            b == (TpmsEccParmsBuilder {
                symmetric: Some(symmetric),
                scheme: AsymSchemeUnion::AnySig(None),
                curve,
                for_signing: false,
                for_decryption: true,
                restricted: true,
            }),
    {
        TpmsEccParmsBuilder {
            symmetric: Some(symmetric),
            scheme: AsymSchemeUnion::AnySig(None),
            curve,
            for_signing: false,
            for_decryption: true,
            restricted: true,
        }
    }

    /// Parameters for an unrestricted signing key.
    pub fn new_unrestricted_signing_key(scheme: AsymSchemeUnion, curve: EllipticCurve) -> (b:
        TpmsEccParmsBuilder)
        ensures
            b == (TpmsEccParmsBuilder {
                symmetric: None,
                scheme,
                curve,
                for_signing: true,
                for_decryption: false,
                restricted: false,
            }),
    {
        TpmsEccParmsBuilder {
            symmetric: None,
            scheme,
            curve,
            for_signing: true,
            for_decryption: false,
            restricted: false,
        }
    }

    /// Build the ECC parameter block, validating the flag/scheme/curve
    /// combination.
    pub fn build(self) -> (r: Result<TpmsEccParms, WrapperErrorKind>)
        ensures
            r == spec_ecc_parms_build(self),
    {
        if self.restricted && self.for_decryption {
            if self.symmetric.is_none() {
                return Err(WrapperErrorKind::ParamsMissing);
            }
        } else if self.symmetric.is_some() {
            return Err(WrapperErrorKind::InconsistentParams);
        }
        if self.for_decryption && self.for_signing {
            return Err(WrapperErrorKind::InconsistentParams);
        }

        let scheme = self.scheme.get_ecc_scheme_struct();
        if self.for_signing && scheme.scheme != TPM2_ALG_ECDSA && scheme.scheme != TPM2_ALG_ECDAA
            && scheme.scheme != TPM2_ALG_SM2 && scheme.scheme != TPM2_ALG_ECSCHNORR {
            return Err(WrapperErrorKind::InconsistentParams);
        }
        if self.for_decryption && scheme.scheme != TPM2_ALG_SM2 && scheme.scheme != TPM2_ALG_ECDH
            && scheme.scheme != TPM2_ALG_ECMQV && scheme.scheme != TPM2_ALG_NULL {
            return Err(WrapperErrorKind::InconsistentParams);
        }
        let needs_ecdaa = match self.curve {
            EllipticCurve::BnP256 => true,
            EllipticCurve::BnP638 => true,
            _ => false,
        };
        if needs_ecdaa && scheme.scheme != TPM2_ALG_ECDAA {
            return Err(WrapperErrorKind::InconsistentParams);
        }

        let symmetric = match self.symmetric {
            Some(cipher) => cipher.to_sym_def_object(),
            None => TpmtSymDefObject { algorithm: TPM2_ALG_NULL, key_bits: 0, mode: 0 },
        };

        Ok(TpmsEccParms {
            symmetric,
            scheme,
            curve_id: self.curve.curve_id(),
            kdf: TpmtKdfScheme { scheme: TPM2_ALG_NULL, details: 0 },
        })
    }
}

/// A restricted decryption build that omits the symmetric cipher reports
/// the cipher as missing, for RSA keys.
pub proof fn lemma_rsa_restricted_decryption_needs_symmetric(b: TpmsRsaParmsBuilder)
    requires
        b.restricted,
        b.for_decryption,
        b.symmetric is None,
    ensures
        spec_rsa_parms_build(b) == Err::<TpmsRsaParms, WrapperErrorKind>(
            WrapperErrorKind::ParamsMissing,
        ),
{
}

/// A restricted decryption build that omits the symmetric cipher reports
/// the cipher as missing, for ECC keys.
pub proof fn lemma_ecc_restricted_decryption_needs_symmetric(b: TpmsEccParmsBuilder)
    requires
        b.restricted,
        b.for_decryption,
        b.symmetric is None,
    ensures
        spec_ecc_parms_build(b) == Err::<TpmsEccParms, WrapperErrorKind>(
            WrapperErrorKind::ParamsMissing,
        ),
{
}

/// A build that is not a restricted decryption build but supplies a
/// symmetric cipher is inconsistent, for RSA keys.
pub proof fn lemma_rsa_unrestricted_forbids_symmetric(b: TpmsRsaParmsBuilder)
    requires
        !(b.restricted && b.for_decryption),
        b.symmetric is Some,
    ensures
        spec_rsa_parms_build(b) == Err::<TpmsRsaParms, WrapperErrorKind>(
            WrapperErrorKind::InconsistentParams,
        ),
{
}

/// A build that is not a restricted decryption build but supplies a
/// symmetric cipher is inconsistent, for ECC keys.
pub proof fn lemma_ecc_unrestricted_forbids_symmetric(b: TpmsEccParmsBuilder)
    requires
        !(b.restricted && b.for_decryption),
        b.symmetric is Some,
    ensures
        spec_ecc_parms_build(b) == Err::<TpmsEccParms, WrapperErrorKind>(
            WrapperErrorKind::InconsistentParams,
        ),
{
}

} // verus!
