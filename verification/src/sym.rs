//! Symmetric-algorithm definition structures and their builder.

use vstd::prelude::*;
use crate::algorithms::{
    Cipher, TPM2_ALG_AES, TPM2_ALG_CAMELLIA, TPM2_ALG_NULL, TPM2_ALG_SM4, TPM2_ALG_XOR,
    TPM2_ALG_CFB,
};
use crate::errors::WrapperErrorKind;

verus! {

/// A symmetric-algorithm definition as used in session parameters.  The
/// key-size and mode fields stand for wire unions whose members are all
/// 16-bit values, so they are carried directly as 16-bit words.
#[derive(Clone, Copy, Debug, PartialEq, Eq, Structural, Hash)]
pub struct TpmtSymDef {
    pub algorithm: u16,
    pub key_bits: u16,
    pub mode: u16,
}

/// A symmetric-algorithm definition as embedded in an object's public
/// parameters; structurally identical to `TpmtSymDef`.
#[derive(Clone, Copy, Debug, PartialEq, Eq, Structural, Hash)]
pub struct TpmtSymDefObject {
    pub algorithm: u16,
    pub key_bits: u16,
    pub mode: u16,
}

/// The parameter block of a symmetric-cipher object.
#[derive(Clone, Copy, Debug, PartialEq, Eq, Structural, Hash)]
pub struct TpmsSymcipherParms {
    pub sym: TpmtSymDefObject,
}

impl Cipher {
    /// The symmetric definition that this cipher stands for in an object's
    /// public parameters.
    pub fn to_sym_def_object(self) -> (r: TpmtSymDefObject)
        ensures
            r == (TpmtSymDefObject {
                algorithm: self.algorithm,
                key_bits: self.key_bits,
                mode: self.mode,
            }),
    {
        TpmtSymDefObject { algorithm: self.algorithm, key_bits: self.key_bits, mode: self.mode }
    }

    /// The symmetric definition that this cipher stands for in session
    /// parameters.
    pub fn to_sym_def(self) -> (r: TpmtSymDef)
        ensures
            r == (TpmtSymDef {
                algorithm: self.algorithm,
                key_bits: self.key_bits,
                mode: self.mode,
            }),
    {
        TpmtSymDef { algorithm: self.algorithm, key_bits: self.key_bits, mode: self.mode }
    }

    /// The symmetric-cipher parameter block of this cipher.
    pub fn to_symcipher_parms(self) -> (r: TpmsSymcipherParms)
        ensures
            r == (TpmsSymcipherParms { sym: (TpmtSymDefObject {
                algorithm: self.algorithm,
                key_bits: self.key_bits,
                mode: self.mode,
            }) }),
    {
        TpmsSymcipherParms { sym: self.to_sym_def_object() }
    }
}

/// Builder for symmetric-algorithm definitions.
#[derive(Clone, Copy, Debug, PartialEq, Eq, Structural, Hash)]
pub struct TpmtSymDefBuilder {
    pub algorithm: Option<u16>,
    pub key_bits: u16,
    pub mode: u16,
}

/// The key-size and mode words that the builder's algorithm selects:
/// exclusive-or takes a hash identifier as its key-size word and has no
/// mode; the block ciphers take both; the null algorithm takes neither.
/// A missing algorithm is `ParamsMissing`; an unrecognized one is
/// `UnsupportedParam`.
pub open spec fn spec_bits_and_mode(b: TpmtSymDefBuilder) -> Result<(u16, u16), WrapperErrorKind> {
    match b.algorithm {
        None => Err(WrapperErrorKind::ParamsMissing),
        Some(alg) => if alg == TPM2_ALG_XOR {
            Ok((b.key_bits, 0u16))
        } else if alg == TPM2_ALG_AES || alg == TPM2_ALG_SM4 || alg == TPM2_ALG_CAMELLIA {
            Ok((b.key_bits, b.mode))
        } else if alg == TPM2_ALG_NULL {
            Ok((0u16, 0u16))
        } else {
            Err(WrapperErrorKind::UnsupportedParam)
        },
    }
}

/// What `build` returns: the symmetric definition for the recognized
/// algorithms, or the error that `spec_bits_and_mode` names.
pub open spec fn spec_sym_def(b: TpmtSymDefBuilder) -> Result<TpmtSymDef, WrapperErrorKind> {
    match spec_bits_and_mode(b) {
        Err(e) => Err(e),
        Ok((key_bits, mode)) => Ok(TpmtSymDef {
            algorithm: b.algorithm->Some_0,
            key_bits,
            mode,
        }),
    }
}

/// What `build_object` returns; structurally the same as `spec_sym_def`.
pub open spec fn spec_sym_def_object(
    b: TpmtSymDefBuilder,
) -> Result<TpmtSymDefObject, WrapperErrorKind> {
    match spec_bits_and_mode(b) {
        Err(e) => Err(e),
        Ok((key_bits, mode)) => Ok(TpmtSymDefObject {
            algorithm: b.algorithm->Some_0,
            key_bits,
            mode,
        }),
    }
}

impl TpmtSymDefBuilder {
    /// A builder with no algorithm chosen, a zero key size, and the null
    /// mode.
    pub fn new() -> (b: TpmtSymDefBuilder)
        ensures
            b == (TpmtSymDefBuilder { algorithm: None, key_bits: 0u16, mode: TPM2_ALG_NULL }),
    {
        TpmtSymDefBuilder { algorithm: None, key_bits: 0, mode: TPM2_ALG_NULL }
    }

    /// Set the symmetric algorithm.
    pub fn with_algorithm(self, algorithm: u16) -> (b: TpmtSymDefBuilder)
        ensures
            b == (TpmtSymDefBuilder { algorithm: Some(algorithm), ..self }),
    {
        TpmtSymDefBuilder { algorithm: Some(algorithm), ..self }
    }

    /// Set the key length in bits.
    pub fn with_key_bits(self, key_bits: u16) -> (b: TpmtSymDefBuilder)
        ensures
            b == (TpmtSymDefBuilder { key_bits, ..self }),
    {
        TpmtSymDefBuilder { key_bits, ..self }
    }

    /// Set the hash algorithm carried in the key-size word; this applies
    /// when the symmetric algorithm is exclusive-or.
    pub fn with_hash(self, hash: u16) -> (b: TpmtSymDefBuilder)
        ensures
            b == (TpmtSymDefBuilder { key_bits: hash, ..self }),
    {
        TpmtSymDefBuilder { key_bits: hash, ..self }
    }

    /// Set the block mode of the symmetric algorithm.
    pub fn with_mode(self, mode: u16) -> (b: TpmtSymDefBuilder)
        ensures
            b == (TpmtSymDefBuilder { mode, ..self }),
    {
        TpmtSymDefBuilder { mode, ..self }
    }

    /// The key-size and mode words selected by the chosen algorithm.
    fn bits_and_mode(self) -> (r: Result<(u16, u16), WrapperErrorKind>)
        ensures
            r == spec_bits_and_mode(self),
    {
        match self.algorithm {
            Some(alg) => {
                if alg == TPM2_ALG_XOR {
                    // Exclusive-or: the key-size word carries a hash
                    // identifier and the mode is null.
                    Ok((self.key_bits, 0))
                } else if alg == TPM2_ALG_AES || alg == TPM2_ALG_SM4 || alg == TPM2_ALG_CAMELLIA {
                    Ok((self.key_bits, self.mode))
                } else if alg == TPM2_ALG_NULL {
                    Ok((0, 0))
                } else {
                    Err(WrapperErrorKind::UnsupportedParam)
                }
            },
            None => Err(WrapperErrorKind::ParamsMissing),
        }
    }

    /// Build a session symmetric definition from the provided parameters.
    pub fn build(self) -> (r: Result<TpmtSymDef, WrapperErrorKind>)
        ensures
            r == spec_sym_def(self),
    {
        match self.bits_and_mode() {
            Ok((key_bits, mode)) => {
                match self.algorithm {
                    Some(algorithm) => Ok(TpmtSymDef { algorithm, key_bits, mode }),
                    // `bits_and_mode` reports a missing algorithm first.
                    None => Err(WrapperErrorKind::ParamsMissing),
                }
            },
            Err(e) => Err(e),
        }
    }

    /// Build an object symmetric definition from the provided parameters.
    pub fn build_object(self) -> (r: Result<TpmtSymDefObject, WrapperErrorKind>)
        ensures
            r == spec_sym_def_object(self),
    {
        match self.bits_and_mode() {
            Ok((key_bits, mode)) => {
                match self.algorithm {
                    Some(algorithm) => Ok(TpmtSymDefObject { algorithm, key_bits, mode }),
                    // `bits_and_mode` reports a missing algorithm first.
                    None => Err(WrapperErrorKind::ParamsMissing),
                }
            },
            Err(e) => Err(e),
        }
    }

    /// A session symmetric definition for 256-bit AES in CFB mode.
    pub fn aes_256_cfb() -> (r: TpmtSymDef)
        ensures
            r == (TpmtSymDef { algorithm: TPM2_ALG_AES, key_bits: 256u16, mode: TPM2_ALG_CFB }),
    {
        TpmtSymDef { algorithm: TPM2_ALG_AES, key_bits: 256, mode: TPM2_ALG_CFB }
    }

    /// An object symmetric definition for 256-bit AES in CFB mode.
    pub fn aes_256_cfb_object() -> (r: TpmtSymDefObject)
        ensures
            r == (TpmtSymDefObject {
                algorithm: TPM2_ALG_AES,
                key_bits: 256u16,
                mode: TPM2_ALG_CFB,
            }),
    {
        TpmtSymDefObject { algorithm: TPM2_ALG_AES, key_bits: 256, mode: TPM2_ALG_CFB }
    }
}

impl Default for TpmtSymDefBuilder {
    /// The default builder is the empty builder.
    fn default() -> (b: TpmtSymDefBuilder)
        ensures
            b == (TpmtSymDefBuilder { algorithm: None, key_bits: 0u16, mode: TPM2_ALG_NULL }),
    {
        TpmtSymDefBuilder::new()
    }
}

} // verus!
