//! The public-key descriptor (public area): its tagged unions, the builder
//! that assembles it, and convenience constructors for common key shapes.

use vstd::prelude::*;
use crate::algorithms::{
    Cipher, EllipticCurve, TPM2_ALG_ECC, TPM2_ALG_KEYEDHASH, TPM2_ALG_NULL, TPM2_ALG_RSA,
    TPM2_ALG_SHA256, TPM2_ALG_SYMCIPHER,
};
use crate::attributes::{
    ObjectAttributes, TPMA_OBJECT_DECRYPT, TPMA_OBJECT_FIXEDPARENT, TPMA_OBJECT_FIXEDTPM,
    TPMA_OBJECT_RESTRICTED, TPMA_OBJECT_SENSITIVEDATAORIGIN, TPMA_OBJECT_SIGN_ENCRYPT,
    TPMA_OBJECT_USERWITHAUTH,
};
use crate::errors::WrapperErrorKind;
use crate::params::{
    spec_rsa_parms_build, spec_ecc_parms_build, TpmsEccParms, TpmsEccParmsBuilder, TpmsRsaParms,
    TpmsRsaParmsBuilder,
};
use crate::schemes::{AsymSchemeUnion, TpmuAsymScheme};
use crate::sym::{TpmsSymcipherParms, TpmtSymDefObject};
use crate::tpm2b::{
    spec_zero_bytes, Tpm2bDigest, Tpm2bPublicKeyRsa, TpmsEccPoint, TPM2_MAX_DIGEST_BYTES,
    TPM2_MAX_ECC_KEY_BYTES, TPM2_MAX_RSA_KEY_BYTES,
};

verus! {

/// The size in bytes of the in-memory public-area structure, as recorded
/// in the outer size field of a built descriptor on common 64-bit
/// platforms.
pub const TPMT_PUBLIC_SIZE: u16 = 612;

/// The parameter block of a keyed-hash object: its scheme identifier and
/// the hash word of the scheme's parameter union.
#[derive(Clone, Copy, Debug, PartialEq, Eq, Structural, Hash)]
pub struct TpmsKeyedhashParms {
    pub scheme: u16,
    pub details: u16,
}

/// A generic asymmetric scheme: identifier plus payload.
#[derive(Clone, Copy, Debug, PartialEq, Eq, Structural, Hash)]
pub struct TpmtAsymScheme {
    pub scheme: u16,
    pub details: TpmuAsymScheme,
}

/// The parameter block common to the asymmetric object families.
#[derive(Clone, Copy, Debug, PartialEq, Eq, Structural, Hash)]
pub struct TpmsAsymParms {
    pub symmetric: TpmtSymDefObject,
    pub scheme: TpmtAsymScheme,
}

/// The public-parameter union of a public area, tagged by the object
/// type it accompanies.
#[derive(Clone, Copy, Debug, PartialEq, Eq, Structural, Hash)]
pub enum TpmuPublicParms {
    KeyedHashDetail(TpmsKeyedhashParms),
    SymDetail(TpmsSymcipherParms),
    RsaDetail(TpmsRsaParms),
    EccDetail(TpmsEccParms),
    AsymDetail(TpmsAsymParms),
}

/// The unique-value union of a public area, tagged by the object type it
/// accompanies.
#[derive(Clone, Debug)]
pub enum TpmuPublicId {
    KeyedHash(Tpm2bDigest),
    Sym(Tpm2bDigest),
    Rsa(Tpm2bPublicKeyRsa),
    Ecc(TpmsEccPoint),
}

/// The public area of a TPM object: type, name hash, attributes,
/// authorization policy, parameters, and unique value.
#[derive(Clone, Debug)]
pub struct TpmtPublic {
    pub type_: u16,
    pub name_alg: u16,
    pub object_attributes: u32,
    pub auth_policy: Tpm2bDigest,
    pub parameters: TpmuPublicParms,
    pub unique: TpmuPublicId,
}

/// A sized public area.
#[derive(Clone, Debug)]
pub struct Tpm2bPublic {
    pub size: u16,
    pub public_area: TpmtPublic,
}

/// The domain-level public-parameter value handed to the public-area
/// builder; the symmetric-cipher variant carries the cipher itself rather
/// than its wire form.
#[derive(Clone, Copy, Debug, PartialEq, Eq, Structural, Hash)]
pub enum PublicParmsUnion {
    KeyedHashDetail(TpmsKeyedhashParms),
    SymDetail(Cipher),
    RsaDetail(TpmsRsaParms),
    EccDetail(TpmsEccParms),
    AsymDetail(TpmsAsymParms),
}

/// The object type that each public-parameter variant belongs with.
pub open spec fn spec_parms_object_type(parms: PublicParmsUnion) -> u16 {
    match parms {
        PublicParmsUnion::AsymDetail(_) => TPM2_ALG_NULL,
        PublicParmsUnion::EccDetail(_) => TPM2_ALG_ECC,
        PublicParmsUnion::RsaDetail(_) => TPM2_ALG_RSA,
        PublicParmsUnion::SymDetail(_) => TPM2_ALG_SYMCIPHER,
        PublicParmsUnion::KeyedHashDetail(_) => TPM2_ALG_KEYEDHASH,
    }
}

impl PublicParmsUnion {
    /// The object type corresponding to this value's variant.
    pub fn object_type(&self) -> (t: u16)
        ensures
            t == spec_parms_object_type(*self),
    {
        match self {
            PublicParmsUnion::AsymDetail(_) => TPM2_ALG_NULL,
            PublicParmsUnion::EccDetail(_) => TPM2_ALG_ECC,
            PublicParmsUnion::RsaDetail(_) => TPM2_ALG_RSA,
            PublicParmsUnion::SymDetail(_) => TPM2_ALG_SYMCIPHER,
            PublicParmsUnion::KeyedHashDetail(_) => TPM2_ALG_KEYEDHASH,
        }
    }

    /// Lower this value to the wire-level parameter union; the symmetric
    /// cipher is expanded into its parameter block.
    pub fn to_tpmu(self) -> (r: TpmuPublicParms)
        ensures
            r == match self {
                PublicParmsUnion::AsymDetail(p) => TpmuPublicParms::AsymDetail(p),
                PublicParmsUnion::EccDetail(p) => TpmuPublicParms::EccDetail(p),
                PublicParmsUnion::RsaDetail(p) => TpmuPublicParms::RsaDetail(p),
                PublicParmsUnion::SymDetail(c) => TpmuPublicParms::SymDetail(TpmsSymcipherParms {
                    sym: TpmtSymDefObject {
                        algorithm: c.algorithm,
                        key_bits: c.key_bits,
                        mode: c.mode,
                    },
                }),
                PublicParmsUnion::KeyedHashDetail(p) => TpmuPublicParms::KeyedHashDetail(p),
            },
    {
        match self {
            PublicParmsUnion::AsymDetail(p) => TpmuPublicParms::AsymDetail(p),
            PublicParmsUnion::EccDetail(p) => TpmuPublicParms::EccDetail(p),
            PublicParmsUnion::RsaDetail(p) => TpmuPublicParms::RsaDetail(p),
            PublicParmsUnion::SymDetail(c) => TpmuPublicParms::SymDetail(c.to_symcipher_parms()),
            PublicParmsUnion::KeyedHashDetail(p) => TpmuPublicParms::KeyedHashDetail(p),
        }
    }
}

/// The domain-level unique value handed to the public-area builder or
/// extracted from a built public area.
#[derive(Clone, Debug)]
pub enum PublicIdUnion {
    KeyedHash(Tpm2bDigest),
    Sym(Tpm2bDigest),
    Rsa(Box<Tpm2bPublicKeyRsa>),
    Ecc(Box<TpmsEccPoint>),
}

impl PublicIdUnion {
    /// Extract the unique value of a public area as the domain-level
    /// union.
    ///
    /// The public area carries its unique value as a tagged variant, so
    /// the extraction checks the declared object type against the variant
    /// actually present: a mismatch is `InconsistentParams`, and an object
    /// type outside the supported families is `UnsupportedParam`.
    pub fn from_public(public: &Tpm2bPublic) -> (r: Result<PublicIdUnion, WrapperErrorKind>)
        ensures
            r is Ok <==> (public.public_area.type_ == TPM2_ALG_RSA
                && public.public_area.unique is Rsa) || (public.public_area.type_ == TPM2_ALG_ECC
                && public.public_area.unique is Ecc),
            r matches Ok(u) ==> match public.public_area.unique {
                TpmuPublicId::Rsa(k) => u matches PublicIdUnion::Rsa(b) && b.size == k.size
                    && b.buffer@ == k.buffer@,
                TpmuPublicId::Ecc(p) => u matches PublicIdUnion::Ecc(b) && b.x.size == p.x.size
                    && b.x.buffer@ == p.x.buffer@ && b.y.size == p.y.size
                    && b.y.buffer@ == p.y.buffer@,
                _ => false,
            },
            r matches Err(e) ==> if public.public_area.type_ == TPM2_ALG_RSA
                || public.public_area.type_ == TPM2_ALG_ECC {
                e == WrapperErrorKind::InconsistentParams
            } else {
                e == WrapperErrorKind::UnsupportedParam
            },
    {
        if public.public_area.type_ == TPM2_ALG_RSA {
            match &public.public_area.unique {
                TpmuPublicId::Rsa(k) => {
                    let copy = Tpm2bPublicKeyRsa {
                        size: k.size,
                        buffer: crate::tpm2b::copy_bytes(&k.buffer),
                    };
                    Ok(PublicIdUnion::Rsa(Box::new(copy)))
                },
                _ => Err(WrapperErrorKind::InconsistentParams),
            }
        } else if public.public_area.type_ == TPM2_ALG_ECC {
            match &public.public_area.unique {
                TpmuPublicId::Ecc(p) => {
                    let copy = TpmsEccPoint {
                        x: crate::tpm2b::Tpm2bEccParameter {
                            size: p.x.size,
                            buffer: crate::tpm2b::copy_bytes(&p.x.buffer),
                        },
                        y: crate::tpm2b::Tpm2bEccParameter {
                            size: p.y.size,
                            buffer: crate::tpm2b::copy_bytes(&p.y.buffer),
                        },
                    };
                    Ok(PublicIdUnion::Ecc(Box::new(copy)))
                },
                _ => Err(WrapperErrorKind::InconsistentParams),
            }
        } else {
            Err(WrapperErrorKind::UnsupportedParam)
        }
    }
}

/// Helper for building public-area values out of their subcomponents.
#[derive(Clone, Debug)]
pub struct Tpm2BPublicBuilder {
    pub type_: Option<u16>,
    pub name_alg: u16,
    pub object_attributes: ObjectAttributes,
    pub auth_policy: Tpm2bDigest,
    pub parameters: Option<PublicParmsUnion>,
    pub unique: Option<PublicIdUnion>,
}

/// The error that building a public area reports, if any.  Only the RSA
/// and ECC object types are supported; for those, the parameter block is
/// mandatory and both the parameter block and the unique value must match
/// the requested type.  Parameters are checked before the unique value.
pub open spec fn spec_public_build_err(b: Tpm2BPublicBuilder) -> Option<WrapperErrorKind> {
    match b.type_ {
        Some(t) => if t == TPM2_ALG_RSA {
            if !(b.parameters matches Some(PublicParmsUnion::RsaDetail(_))) {
                if b.parameters is None {
                    Some(WrapperErrorKind::ParamsMissing)
                } else {
                    Some(WrapperErrorKind::InconsistentParams)
                }
            } else if b.unique is Some && !(b.unique matches Some(PublicIdUnion::Rsa(_))) {
                Some(WrapperErrorKind::InconsistentParams)
            } else {
                None
            }
        } else if t == TPM2_ALG_ECC {
            if !(b.parameters matches Some(PublicParmsUnion::EccDetail(_))) {
                if b.parameters is None {
                    Some(WrapperErrorKind::ParamsMissing)
                } else {
                    Some(WrapperErrorKind::InconsistentParams)
                }
            } else if b.unique is Some && !(b.unique matches Some(PublicIdUnion::Ecc(_))) {
                Some(WrapperErrorKind::InconsistentParams)
            } else {
                None
            }
        } else {
            Some(WrapperErrorKind::UnsupportedParam)
        },
        None => Some(WrapperErrorKind::UnsupportedParam),
    }
}

/// How a successfully built public area relates to its builder: the size
/// field is populated, every scalar field is carried over, the parameter
/// union carries the supplied block, and the unique union carries the
/// supplied value, or the zeroed value of the requested type if none was
/// supplied.
pub open spec fn spec_public_build_ok(b: Tpm2BPublicBuilder, p: Tpm2bPublic) -> bool {
    &&& p.size == TPMT_PUBLIC_SIZE
    &&& b.type_ matches Some(t) && p.public_area.type_ == t
    &&& p.public_area.name_alg == b.name_alg
    &&& p.public_area.object_attributes == b.object_attributes.0
    &&& p.public_area.auth_policy.size == b.auth_policy.size
    &&& p.public_area.auth_policy.buffer@ == b.auth_policy.buffer@
    &&& (b.parameters matches Some(PublicParmsUnion::RsaDetail(parms)) ==> p.public_area.parameters
        == TpmuPublicParms::RsaDetail(parms))
    &&& (b.parameters matches Some(PublicParmsUnion::EccDetail(parms)) ==> p.public_area.parameters
        == TpmuPublicParms::EccDetail(parms))
    &&& (b.unique matches Some(PublicIdUnion::Rsa(u)) ==> (p.public_area.unique matches
        TpmuPublicId::Rsa(k) && k.size == u.size && k.buffer@ == u.buffer@))
    &&& (b.unique matches Some(PublicIdUnion::Ecc(u)) ==> (p.public_area.unique matches
        TpmuPublicId::Ecc(pt) && pt.x.size == u.x.size && pt.x.buffer@ == u.x.buffer@
        && pt.y.size == u.y.size && pt.y.buffer@ == u.y.buffer@))
    &&& (b.unique is None && b.type_ == Some(TPM2_ALG_RSA) ==> (p.public_area.unique matches
        TpmuPublicId::Rsa(k) && k.size == 0 && k.buffer@ == spec_zero_bytes(
        TPM2_MAX_RSA_KEY_BYTES as int,
    )))
    &&& (b.unique is None && b.type_ == Some(TPM2_ALG_ECC) ==> (p.public_area.unique matches
        TpmuPublicId::Ecc(pt) && pt.x.size == 0 && pt.y.size == 0 && pt.x.buffer@
        == spec_zero_bytes(TPM2_MAX_ECC_KEY_BYTES as int) && pt.y.buffer@ == spec_zero_bytes(
        TPM2_MAX_ECC_KEY_BYTES as int,
    )))
}

impl Tpm2BPublicBuilder {
    /// A builder with no type or parameters chosen, the null name hash,
    /// cleared attributes, and an empty authorization policy.
    pub fn new() -> (b: Tpm2BPublicBuilder)
        ensures
            b.type_ is None,
            b.name_alg == TPM2_ALG_NULL,
            b.object_attributes == (ObjectAttributes(0)),
            b.auth_policy.size == 0,
            b.auth_policy.buffer@ == spec_zero_bytes(TPM2_MAX_DIGEST_BYTES as int),
            b.parameters is None,
            b.unique is None,
    {
        Tpm2BPublicBuilder {
            type_: None,
            name_alg: TPM2_ALG_NULL,
            object_attributes: ObjectAttributes(0),
            auth_policy: Tpm2bDigest::zeroed(),
            parameters: None,
            unique: None,
        }
    }

    /// Set the type of the object to be built.
    pub fn with_type(self, type_: u16) -> (b: Tpm2BPublicBuilder)
        ensures
            b == (Tpm2BPublicBuilder { type_: Some(type_), ..self }),
    {
        Tpm2BPublicBuilder { type_: Some(type_), ..self }
    }

    /// Set the algorithm used to derive the object name.
    pub fn with_name_alg(self, name_alg: u16) -> (b: Tpm2BPublicBuilder)
        ensures
            b == (Tpm2BPublicBuilder { name_alg, ..self }),
    {
        Tpm2BPublicBuilder { name_alg, ..self }
    }

    /// Set the object attributes.
    pub fn with_object_attributes(self, obj_attr: ObjectAttributes) -> (b: Tpm2BPublicBuilder)
        ensures
            b == (Tpm2BPublicBuilder { object_attributes: obj_attr, ..self }),
    {
        Tpm2BPublicBuilder { object_attributes: obj_attr, ..self }
    }

    /// Set the authentication policy digest for the object.
    pub fn with_auth_policy(self, size: u16, buffer: [u8; 64]) -> (b: Tpm2BPublicBuilder)
        ensures
            b.type_ == self.type_,
            b.name_alg == self.name_alg,
            b.object_attributes == self.object_attributes,
            b.auth_policy.size == size,
            b.auth_policy.buffer@ == buffer@,
            b.parameters == self.parameters,
            b.unique == self.unique,
    {
        Tpm2BPublicBuilder {
            auth_policy: Tpm2bDigest { size, buffer: crate::tpm2b::array_to_vec(&buffer) },
            ..self
        }
    }

    /// Set the public parameters of the object.
    pub fn with_parms(self, parameters: PublicParmsUnion) -> (b: Tpm2BPublicBuilder)
        ensures
            b == (Tpm2BPublicBuilder { parameters: Some(parameters), ..self }),
    {
        Tpm2BPublicBuilder { parameters: Some(parameters), ..self }
    }

    /// Set the unique value for the object.
    pub fn with_unique(self, unique: PublicIdUnion) -> (b: Tpm2BPublicBuilder)
        ensures
            b == (Tpm2BPublicBuilder { unique: Some(unique), ..self }),
    {
        Tpm2BPublicBuilder { unique: Some(unique), ..self }
    }

    /// Build a public area from the previously provided parameters,
    /// checking them for consistency against the requested object type.
    pub fn build(self) -> (r: Result<Tpm2bPublic, WrapperErrorKind>)
        ensures
            r is Err <==> spec_public_build_err(self) is Some,
            r matches Err(e) ==> spec_public_build_err(self) == Some(e),
            r matches Ok(p) ==> spec_public_build_ok(self, p),
    {
        match self.type_ {
            Some(t) => {
                if t == TPM2_ALG_RSA {
                    let parameters = match self.parameters {
                        Some(PublicParmsUnion::RsaDetail(parms)) => TpmuPublicParms::RsaDetail(
                            parms,
                        ),
                        None => {
                            return Err(WrapperErrorKind::ParamsMissing);
                        },
                        Some(_) => {
                            return Err(WrapperErrorKind::InconsistentParams);
                        },
                    };
                    let unique = match self.unique {
                        Some(PublicIdUnion::Rsa(rsa_unique)) => TpmuPublicId::Rsa(*rsa_unique),
                        None => TpmuPublicId::Rsa(Tpm2bPublicKeyRsa::zeroed()),
                        Some(_) => {
                            return Err(WrapperErrorKind::InconsistentParams);
                        },
                    };
                    Ok(Tpm2bPublic {
                        size: TPMT_PUBLIC_SIZE,
                        public_area: TpmtPublic {
                            type_: t,
                            name_alg: self.name_alg,
                            object_attributes: self.object_attributes.0,
                            auth_policy: self.auth_policy,
                            parameters,
                            unique,
                        },
                    })
                } else if t == TPM2_ALG_ECC {
                    let parameters = match self.parameters {
                        Some(PublicParmsUnion::EccDetail(parms)) => TpmuPublicParms::EccDetail(
                            parms,
                        ),
                        None => {
                            return Err(WrapperErrorKind::ParamsMissing);
                        },
                        Some(_) => {
                            return Err(WrapperErrorKind::InconsistentParams);
                        },
                    };
                    let unique = match self.unique {
                        Some(PublicIdUnion::Ecc(ecc_unique)) => TpmuPublicId::Ecc(*ecc_unique),
                        None => TpmuPublicId::Ecc(TpmsEccPoint::zeroed()),
                        Some(_) => {
                            return Err(WrapperErrorKind::InconsistentParams);
                        },
                    };
                    Ok(Tpm2bPublic {
                        size: TPMT_PUBLIC_SIZE,
                        public_area: TpmtPublic {
                            type_: t,
                            name_alg: self.name_alg,
                            object_attributes: self.object_attributes.0,
                            auth_policy: self.auth_policy,
                            parameters,
                            unique,
                        },
                    })
                } else {
                    Err(WrapperErrorKind::UnsupportedParam)
                }
            },
            None => Err(WrapperErrorKind::UnsupportedParam),
        }
    }
}

impl Default for Tpm2BPublicBuilder {
    /// The default builder is the empty builder.
    fn default() -> (b: Tpm2BPublicBuilder)
        ensures
            b.type_ is None,
            b.name_alg == TPM2_ALG_NULL,
            b.object_attributes == (ObjectAttributes(0)),
            b.auth_policy.size == 0,
            b.auth_policy.buffer@ == spec_zero_bytes(TPM2_MAX_DIGEST_BYTES as int),
            b.parameters is None,
            b.unique is None,
    {
        Tpm2BPublicBuilder::new()
    }
}

/// The attribute word of a restricted decryption key fixed to its parent.
pub open spec fn spec_restricted_decryption_attrs() -> u32 {
    TPMA_OBJECT_FIXEDTPM | TPMA_OBJECT_FIXEDPARENT | TPMA_OBJECT_SENSITIVEDATAORIGIN
        | TPMA_OBJECT_USERWITHAUTH | TPMA_OBJECT_DECRYPT | TPMA_OBJECT_RESTRICTED
}

/// The attribute word of an unrestricted signing key fixed to its parent.
pub open spec fn spec_unrestricted_signing_attrs() -> u32 {
    TPMA_OBJECT_FIXEDTPM | TPMA_OBJECT_FIXEDPARENT | TPMA_OBJECT_SENSITIVEDATAORIGIN
        | TPMA_OBJECT_USERWITHAUTH | TPMA_OBJECT_SIGN_ENCRYPT
}

/// The RSA parameter builder that a restricted decryption public area is
/// assembled from.
pub open spec fn spec_restricted_decryption_rsa_parms_builder(
    symmetric: Cipher,
    key_bits: u16,
    pub_exponent: u32,
) -> TpmsRsaParmsBuilder {
    TpmsRsaParmsBuilder {
        symmetric: Some(
            TpmtSymDefObject {
                algorithm: symmetric.algorithm,
                key_bits: symmetric.key_bits,
                mode: symmetric.mode,
            },
        ),
        scheme: Some(AsymSchemeUnion::AnySig(None)),
        key_bits,
        exponent: pub_exponent,
        for_signing: false,
        for_decryption: true,
        restricted: true,
    }
}

/// Create the public area for a restricted decryption RSA key (a storage
/// key): the given cipher protects the key's children, the name hash is
/// SHA-256, and the attributes are the restricted-decryption preset.
pub fn create_restricted_decryption_rsa_public(
    symmetric: Cipher,
    key_bits: u16,
    pub_exponent: u32,
) -> (r: Result<Tpm2bPublic, WrapperErrorKind>)
    ensures
        r is Ok,
        r matches Ok(p) ==> {
            &&& p.size == TPMT_PUBLIC_SIZE
            &&& p.public_area.type_ == TPM2_ALG_RSA
            &&& p.public_area.name_alg == TPM2_ALG_SHA256
            &&& p.public_area.object_attributes == spec_restricted_decryption_attrs()
            &&& p.public_area.auth_policy.size == 0
            &&& p.public_area.auth_policy.buffer@ == spec_zero_bytes(TPM2_MAX_DIGEST_BYTES as int)
            &&& spec_rsa_parms_build(
                spec_restricted_decryption_rsa_parms_builder(symmetric, key_bits, pub_exponent),
            ) matches Ok(parms) && p.public_area.parameters == TpmuPublicParms::RsaDetail(parms)
            &&& p.public_area.unique matches TpmuPublicId::Rsa(k) && k.size == 0 && k.buffer@
                == spec_zero_bytes(TPM2_MAX_RSA_KEY_BYTES as int)
        },
{
    let rsa_parms = match TpmsRsaParmsBuilder::new_restricted_decryption_key(
        symmetric.to_sym_def_object(),
        key_bits,
        pub_exponent,
    ).build() {
        Ok(parms) => parms,
        // A restricted decryption builder with its cipher present and the
        // placeholder scheme always validates.
        Err(e) => {
            return Err(e);
        },
    };
    let mut object_attributes = ObjectAttributes(0);
    object_attributes.set_fixed_tpm(true);
    object_attributes.set_fixed_parent(true);
    object_attributes.set_sensitive_data_origin(true);
    object_attributes.set_user_with_auth(true);
    object_attributes.set_decrypt(true);
    object_attributes.set_sign_encrypt(false);
    object_attributes.set_restricted(true);
    proof {
        assert((((((((0u32 | 0x2) | 0x10) | 0x20) | 0x40) | 0x2_0000) & !0x4_0000) | 0x1_0000)
            == 0x2u32 | 0x10 | 0x20 | 0x40 | 0x2_0000 | 0x1_0000) by (bit_vector);
    }

    Tpm2BPublicBuilder::new()
        .with_type(TPM2_ALG_RSA)
        .with_name_alg(TPM2_ALG_SHA256)
        .with_object_attributes(object_attributes)
        .with_parms(PublicParmsUnion::RsaDetail(rsa_parms))
        .build()
}

/// The RSA parameter builder that an unrestricted signing public area is
/// assembled from.
pub open spec fn spec_unrestricted_signing_rsa_parms_builder(
    scheme: AsymSchemeUnion,
    key_bits: u16,
    pub_exponent: u32,
) -> TpmsRsaParmsBuilder {
    TpmsRsaParmsBuilder {
        symmetric: None,
        scheme: Some(scheme),
        key_bits,
        exponent: pub_exponent,
        for_signing: true,
        for_decryption: false,
        restricted: false,
    }
}

/// Create the public area for an unrestricted signing RSA key with the
/// given scheme; a scheme that is not a permitted RSA signing scheme is
/// reported exactly as the parameter builder reports it.
pub fn create_unrestricted_signing_rsa_public(
    scheme: AsymSchemeUnion,
    key_bits: u16,
    pub_exponent: u32,
) -> (r: Result<Tpm2bPublic, WrapperErrorKind>)
    ensures
        r is Err <==> spec_rsa_parms_build(
            spec_unrestricted_signing_rsa_parms_builder(scheme, key_bits, pub_exponent),
        ) is Err,
        r matches Err(e) ==> spec_rsa_parms_build(
            spec_unrestricted_signing_rsa_parms_builder(scheme, key_bits, pub_exponent),
        ) == Err::<TpmsRsaParms, WrapperErrorKind>(e),
        r matches Ok(p) ==> {
            &&& p.size == TPMT_PUBLIC_SIZE
            &&& p.public_area.type_ == TPM2_ALG_RSA
            &&& p.public_area.name_alg == TPM2_ALG_SHA256
            &&& p.public_area.object_attributes == spec_unrestricted_signing_attrs()
            &&& p.public_area.auth_policy.size == 0
            &&& p.public_area.auth_policy.buffer@ == spec_zero_bytes(TPM2_MAX_DIGEST_BYTES as int)
            &&& spec_rsa_parms_build(
                spec_unrestricted_signing_rsa_parms_builder(scheme, key_bits, pub_exponent),
            ) matches Ok(parms) && p.public_area.parameters == TpmuPublicParms::RsaDetail(parms)
            &&& p.public_area.unique matches TpmuPublicId::Rsa(k) && k.size == 0 && k.buffer@
                == spec_zero_bytes(TPM2_MAX_RSA_KEY_BYTES as int)
        },
{
    let rsa_parms = match TpmsRsaParmsBuilder::new_unrestricted_signing_key(
        scheme,
        key_bits,
        pub_exponent,
    ).build() {
        Ok(parms) => parms,
        Err(e) => {
            return Err(e);
        },
    };
    let mut object_attributes = ObjectAttributes(0);
    object_attributes.set_fixed_tpm(true);
    object_attributes.set_fixed_parent(true);
    object_attributes.set_sensitive_data_origin(true);
    object_attributes.set_user_with_auth(true);
    object_attributes.set_decrypt(false);
    object_attributes.set_sign_encrypt(true);
    object_attributes.set_restricted(false);
    proof {
        assert((((((((0u32 | 0x2) | 0x10) | 0x20) | 0x40) & !0x2_0000) | 0x4_0000) & !0x1_0000)
            == 0x2u32 | 0x10 | 0x20 | 0x40 | 0x4_0000) by (bit_vector);
    }

    Tpm2BPublicBuilder::new()
        .with_type(TPM2_ALG_RSA)
        .with_name_alg(TPM2_ALG_SHA256)
        .with_object_attributes(object_attributes)
        .with_parms(PublicParmsUnion::RsaDetail(rsa_parms))
        .build()
}

/// The ECC parameter builder that an unrestricted signing public area is
/// assembled from.
pub open spec fn spec_unrestricted_signing_ecc_parms_builder(
    scheme: AsymSchemeUnion,
    curve: EllipticCurve,
) -> TpmsEccParmsBuilder {
    TpmsEccParmsBuilder {
        symmetric: None,
        scheme,
        curve,
        for_signing: true,
        for_decryption: false,
        restricted: false,
    }
}

/// Create the public area for an unrestricted signing ECC key with the
/// given scheme and curve; a scheme or curve combination the parameter
/// builder rejects is reported exactly as the builder reports it.
pub fn create_unrestricted_signing_ecc_public(
    scheme: AsymSchemeUnion,
    curve: EllipticCurve,
) -> (r: Result<Tpm2bPublic, WrapperErrorKind>)
    ensures
        r is Err <==> spec_ecc_parms_build(
            spec_unrestricted_signing_ecc_parms_builder(scheme, curve),
        ) is Err,
        r matches Err(e) ==> spec_ecc_parms_build(
            spec_unrestricted_signing_ecc_parms_builder(scheme, curve),
        ) == Err::<TpmsEccParms, WrapperErrorKind>(e),
        r matches Ok(p) ==> {
            &&& p.size == TPMT_PUBLIC_SIZE
            &&& p.public_area.type_ == TPM2_ALG_ECC
            &&& p.public_area.name_alg == TPM2_ALG_SHA256
            &&& p.public_area.object_attributes == spec_unrestricted_signing_attrs()
            &&& p.public_area.auth_policy.size == 0
            &&& p.public_area.auth_policy.buffer@ == spec_zero_bytes(TPM2_MAX_DIGEST_BYTES as int)
            &&& spec_ecc_parms_build(
                spec_unrestricted_signing_ecc_parms_builder(scheme, curve),
            ) matches Ok(parms) && p.public_area.parameters == TpmuPublicParms::EccDetail(parms)
            &&& p.public_area.unique matches TpmuPublicId::Ecc(pt) && pt.x.size == 0 && pt.y.size
                == 0 && pt.x.buffer@ == spec_zero_bytes(TPM2_MAX_ECC_KEY_BYTES as int)
                && pt.y.buffer@ == spec_zero_bytes(TPM2_MAX_ECC_KEY_BYTES as int)
        },
{
    let ecc_parms = match TpmsEccParmsBuilder::new_unrestricted_signing_key(scheme, curve).build() {
        Ok(parms) => parms,
        Err(e) => {
            return Err(e);
        },
    };
    let mut object_attributes = ObjectAttributes(0);
    object_attributes.set_fixed_tpm(true);
    object_attributes.set_fixed_parent(true);
    object_attributes.set_sensitive_data_origin(true);
    object_attributes.set_user_with_auth(true);
    object_attributes.set_decrypt(false);
    object_attributes.set_sign_encrypt(true);
    object_attributes.set_restricted(false);
    proof {
        assert((((((((0u32 | 0x2) | 0x10) | 0x20) | 0x40) & !0x2_0000) | 0x4_0000) & !0x1_0000)
            == 0x2u32 | 0x10 | 0x20 | 0x40 | 0x4_0000) by (bit_vector);
    }

    Tpm2BPublicBuilder::new()
        .with_type(TPM2_ALG_ECC)
        .with_name_alg(TPM2_ALG_SHA256)
        .with_object_attributes(object_attributes)
        .with_parms(PublicParmsUnion::EccDetail(ecc_parms))
        .build()
}

/// A successfully built public area is internally consistent: its object
/// type is one of the supported families, and both its parameter union
/// and its unique union carry the variant belonging to that type, whether
/// or not a unique value was supplied.
pub proof fn lemma_built_public_area_consistent(b: Tpm2BPublicBuilder, p: Tpm2bPublic)
    requires
        spec_public_build_err(b) is None,
        spec_public_build_ok(b, p),
    ensures
        p.public_area.type_ == TPM2_ALG_RSA || p.public_area.type_ == TPM2_ALG_ECC,
        p.public_area.type_ == TPM2_ALG_RSA ==> p.public_area.parameters is RsaDetail
            && p.public_area.unique is Rsa,
        p.public_area.type_ == TPM2_ALG_ECC ==> p.public_area.parameters is EccDetail
            && p.public_area.unique is Ecc,
{
}

/// A public key extracted from a public area, as plain coordinate bytes.
#[derive(Clone, Debug)]
pub enum PublicKey {
    Rsa(Vec<u8>),
    Ecc { x: Vec<u8>, y: Vec<u8> },
}

} // verus!
