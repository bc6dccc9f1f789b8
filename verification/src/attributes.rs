//! The TPM object-attribute word: a 32-bit flag word with named bit
//! accessors and presets for common key archetypes.

use vstd::prelude::*;

verus! {

// Bit masks of the object-attribute word, one per named attribute.
pub const TPMA_OBJECT_FIXEDTPM: u32 = 0x0000_0002;
pub const TPMA_OBJECT_STCLEAR: u32 = 0x0000_0004;
pub const TPMA_OBJECT_FIXEDPARENT: u32 = 0x0000_0010;
pub const TPMA_OBJECT_SENSITIVEDATAORIGIN: u32 = 0x0000_0020;
pub const TPMA_OBJECT_USERWITHAUTH: u32 = 0x0000_0040;
pub const TPMA_OBJECT_ADMINWITHPOLICY: u32 = 0x0000_0080;
pub const TPMA_OBJECT_NODA: u32 = 0x0000_0400;
pub const TPMA_OBJECT_ENCRYPTEDDUPLICATION: u32 = 0x0000_0800;
pub const TPMA_OBJECT_RESTRICTED: u32 = 0x0001_0000;
pub const TPMA_OBJECT_DECRYPT: u32 = 0x0002_0000;
pub const TPMA_OBJECT_SIGN_ENCRYPT: u32 = 0x0004_0000;

/// Whether the attribute selected by `mask` is set in the flag word `w`.
pub open spec fn attr_set(w: u32, mask: u32) -> bool {
    w & mask == mask
}

/// The flag word `w` with the attribute selected by `mask` set to `value`.
pub open spec fn attr_with(w: u32, mask: u32, value: bool) -> u32 {
    if value {
        w | mask
    } else {
        w & !mask
    }
}

/// The TPM object-attribute word.  Each named attribute occupies one
/// documented bit position; the word is read and written only through the
/// named accessors.
#[derive(Clone, Copy, Debug, PartialEq, Eq, Structural, Hash)]
pub struct ObjectAttributes(pub u32);

impl ObjectAttributes {
    pub fn fixed_tpm(&self) -> (b: bool)
        ensures
            b == attr_set(self.0, TPMA_OBJECT_FIXEDTPM),
    {
        self.0 & TPMA_OBJECT_FIXEDTPM == TPMA_OBJECT_FIXEDTPM
    }

    pub fn set_fixed_tpm(&mut self, value: bool)
        ensures
            final(self).0 == attr_with(old(self).0, TPMA_OBJECT_FIXEDTPM, value),
    {
        if value {
            self.0 = self.0 | TPMA_OBJECT_FIXEDTPM;
        } else {
            self.0 = self.0 & !TPMA_OBJECT_FIXEDTPM;
        }
    }

    pub fn st_clear(&self) -> (b: bool)
        ensures
            b == attr_set(self.0, TPMA_OBJECT_STCLEAR),
    {
        self.0 & TPMA_OBJECT_STCLEAR == TPMA_OBJECT_STCLEAR
    }

    pub fn set_st_clear(&mut self, value: bool)
        ensures
            final(self).0 == attr_with(old(self).0, TPMA_OBJECT_STCLEAR, value),
    {
        if value {
            self.0 = self.0 | TPMA_OBJECT_STCLEAR;
        } else {
            self.0 = self.0 & !TPMA_OBJECT_STCLEAR;
        }
    }

    pub fn fixed_parent(&self) -> (b: bool)
        ensures
            b == attr_set(self.0, TPMA_OBJECT_FIXEDPARENT),
    {
        self.0 & TPMA_OBJECT_FIXEDPARENT == TPMA_OBJECT_FIXEDPARENT
    }

    pub fn set_fixed_parent(&mut self, value: bool)
        ensures
            final(self).0 == attr_with(old(self).0, TPMA_OBJECT_FIXEDPARENT, value),
    {
        if value {
            self.0 = self.0 | TPMA_OBJECT_FIXEDPARENT;
        } else {
            self.0 = self.0 & !TPMA_OBJECT_FIXEDPARENT;
        }
    }

    pub fn sensitive_data_origin(&self) -> (b: bool)
        ensures
            b == attr_set(self.0, TPMA_OBJECT_SENSITIVEDATAORIGIN),
    {
        self.0 & TPMA_OBJECT_SENSITIVEDATAORIGIN == TPMA_OBJECT_SENSITIVEDATAORIGIN
    }

    pub fn set_sensitive_data_origin(&mut self, value: bool)
        ensures
            final(self).0 == attr_with(old(self).0, TPMA_OBJECT_SENSITIVEDATAORIGIN, value),
    {
        if value {
            self.0 = self.0 | TPMA_OBJECT_SENSITIVEDATAORIGIN;
        } else {
            self.0 = self.0 & !TPMA_OBJECT_SENSITIVEDATAORIGIN;
        }
    }

    pub fn user_with_auth(&self) -> (b: bool)
        ensures
            b == attr_set(self.0, TPMA_OBJECT_USERWITHAUTH),
    {
        self.0 & TPMA_OBJECT_USERWITHAUTH == TPMA_OBJECT_USERWITHAUTH
    }

    pub fn set_user_with_auth(&mut self, value: bool)
        ensures
            final(self).0 == attr_with(old(self).0, TPMA_OBJECT_USERWITHAUTH, value),
    {
        if value {
            self.0 = self.0 | TPMA_OBJECT_USERWITHAUTH;
        } else {
            self.0 = self.0 & !TPMA_OBJECT_USERWITHAUTH;
        }
    }

    pub fn admin_with_policy(&self) -> (b: bool)
        ensures
            b == attr_set(self.0, TPMA_OBJECT_ADMINWITHPOLICY),
    {
        self.0 & TPMA_OBJECT_ADMINWITHPOLICY == TPMA_OBJECT_ADMINWITHPOLICY
    }

    pub fn set_admin_with_policy(&mut self, value: bool)
        ensures
            final(self).0 == attr_with(old(self).0, TPMA_OBJECT_ADMINWITHPOLICY, value),
    {
        if value {
            self.0 = self.0 | TPMA_OBJECT_ADMINWITHPOLICY;
        } else {
            self.0 = self.0 & !TPMA_OBJECT_ADMINWITHPOLICY;
        }
    }

    pub fn no_da(&self) -> (b: bool)
        ensures
            b == attr_set(self.0, TPMA_OBJECT_NODA),
    {
        self.0 & TPMA_OBJECT_NODA == TPMA_OBJECT_NODA
    }

    pub fn set_no_da(&mut self, value: bool)
        ensures
            final(self).0 == attr_with(old(self).0, TPMA_OBJECT_NODA, value),
    {
        if value {
            self.0 = self.0 | TPMA_OBJECT_NODA;
        } else {
            self.0 = self.0 & !TPMA_OBJECT_NODA;
        }
    }

    pub fn encrypted_duplication(&self) -> (b: bool)
        ensures
            b == attr_set(self.0, TPMA_OBJECT_ENCRYPTEDDUPLICATION),
    {
        self.0 & TPMA_OBJECT_ENCRYPTEDDUPLICATION == TPMA_OBJECT_ENCRYPTEDDUPLICATION
    }

    pub fn set_encrypted_duplication(&mut self, value: bool)
        ensures
            final(self).0 == attr_with(old(self).0, TPMA_OBJECT_ENCRYPTEDDUPLICATION, value),
    {
        if value {
            self.0 = self.0 | TPMA_OBJECT_ENCRYPTEDDUPLICATION;
        } else {
            self.0 = self.0 & !TPMA_OBJECT_ENCRYPTEDDUPLICATION;
        }
    }

    pub fn restricted(&self) -> (b: bool)
        ensures
            b == attr_set(self.0, TPMA_OBJECT_RESTRICTED),
    {
        self.0 & TPMA_OBJECT_RESTRICTED == TPMA_OBJECT_RESTRICTED
    }

    pub fn set_restricted(&mut self, value: bool)
        ensures
            final(self).0 == attr_with(old(self).0, TPMA_OBJECT_RESTRICTED, value),
    {
        if value {
            self.0 = self.0 | TPMA_OBJECT_RESTRICTED;
        } else {
            self.0 = self.0 & !TPMA_OBJECT_RESTRICTED;
        }
    }

    pub fn decrypt(&self) -> (b: bool)
        ensures
            b == attr_set(self.0, TPMA_OBJECT_DECRYPT),
    {
        self.0 & TPMA_OBJECT_DECRYPT == TPMA_OBJECT_DECRYPT
    }

    pub fn set_decrypt(&mut self, value: bool)
        ensures
            final(self).0 == attr_with(old(self).0, TPMA_OBJECT_DECRYPT, value),
    {
        if value {
            self.0 = self.0 | TPMA_OBJECT_DECRYPT;
        } else {
            self.0 = self.0 & !TPMA_OBJECT_DECRYPT;
        }
    }

    pub fn sign_encrypt(&self) -> (b: bool)
        ensures
            b == attr_set(self.0, TPMA_OBJECT_SIGN_ENCRYPT),
    {
        self.0 & TPMA_OBJECT_SIGN_ENCRYPT == TPMA_OBJECT_SIGN_ENCRYPT
    }

    pub fn set_sign_encrypt(&mut self, value: bool)
        ensures
            final(self).0 == attr_with(old(self).0, TPMA_OBJECT_SIGN_ENCRYPT, value),
    {
        if value {
            self.0 = self.0 | TPMA_OBJECT_SIGN_ENCRYPT;
        } else {
            self.0 = self.0 & !TPMA_OBJECT_SIGN_ENCRYPT;
        }
    }

    /// Preset for a fixed parent (storage) key: fixed in the TPM and to its
    /// parent, origin-sensitive, user-authorized, restricted decryption.
    pub fn new_fixed_parent_key() -> (attrs: ObjectAttributes)
        ensures
            attrs.0 == TPMA_OBJECT_FIXEDTPM | TPMA_OBJECT_FIXEDPARENT
                | TPMA_OBJECT_SENSITIVEDATAORIGIN | TPMA_OBJECT_USERWITHAUTH
                | TPMA_OBJECT_DECRYPT | TPMA_OBJECT_RESTRICTED,
    {
        let mut attrs = ObjectAttributes(0);
        attrs.set_fixed_tpm(true);
        attrs.set_fixed_parent(true);
        attrs.set_sensitive_data_origin(true);
        attrs.set_user_with_auth(true);
        attrs.set_decrypt(true);
        attrs.set_restricted(true);
        proof {
            assert((((((0u32 | 0x2) | 0x10) | 0x20) | 0x40) | 0x2_0000) | 0x1_0000
                == 0x2u32 | 0x10 | 0x20 | 0x40 | 0x2_0000 | 0x1_0000) by (bit_vector);
        }
        attrs
    }

    /// Preset for a fixed signing key: fixed in the TPM and to its parent,
    /// origin-sensitive, user-authorized, unrestricted signing.
    pub fn new_fixed_signing_key() -> (attrs: ObjectAttributes)
        ensures
            attrs.0 == TPMA_OBJECT_FIXEDTPM | TPMA_OBJECT_FIXEDPARENT
                | TPMA_OBJECT_SENSITIVEDATAORIGIN | TPMA_OBJECT_USERWITHAUTH
                | TPMA_OBJECT_SIGN_ENCRYPT,
    {
        let mut attrs = ObjectAttributes(0);
        attrs.set_fixed_tpm(true);
        attrs.set_fixed_parent(true);
        attrs.set_sensitive_data_origin(true);
        attrs.set_user_with_auth(true);
        attrs.set_sign_encrypt(true);
        proof {
            assert(((((0u32 | 0x2) | 0x10) | 0x20) | 0x40) | 0x4_0000
                == 0x2u32 | 0x10 | 0x20 | 0x40 | 0x4_0000) by (bit_vector);
        }
        attrs
    }
}

} // verus!
