//! Session attributes: a flags word paired with a mask word naming the
//! flags an update intends to affect.

use vstd::prelude::*;

verus! {

// Bit masks of the session-attribute word.
pub const TPMA_SESSION_CONTINUESESSION: u8 = 0x01;
pub const TPMA_SESSION_AUDITEXCLUSIVE: u8 = 0x02;
pub const TPMA_SESSION_AUDITRESET: u8 = 0x04;
pub const TPMA_SESSION_DECRYPT: u8 = 0x20;
pub const TPMA_SESSION_ENCRYPT: u8 = 0x40;
pub const TPMA_SESSION_AUDIT: u8 = 0x80;

/// A session-attribute update: the flag values to apply and the mask of
/// flags the update affects.
#[derive(Clone, Copy, Debug, PartialEq, Eq, Structural, Hash, Default)]
pub struct TpmaSession {
    pub flags: u8,
    pub mask: u8,
}

impl TpmaSession {
    /// A copy of this value with a new mask.
    pub fn clone_with_new_mask(self, new_mask: u8) -> (r: TpmaSession)
        ensures
            r == (TpmaSession { flags: self.flags, mask: new_mask }),
    {
        TpmaSession { flags: self.flags, mask: new_mask }
    }

    /// The mask of flags this update affects.
    pub fn mask(self) -> (m: u8)
        ensures
            m == self.mask,
    {
        self.mask
    }

    /// The flag values this update applies.
    pub fn flags(self) -> (f: u8)
        ensures
            f == self.flags,
    {
        self.flags
    }
}

/// Builder for session-attribute updates.  If no mask is ever supplied,
/// the mask defaults to the flags themselves: every flag that is set is
/// also a flag the update intends to affect.
#[derive(Clone, Copy, Debug, PartialEq, Eq, Structural, Hash, Default)]
pub struct TpmaSessionBuilder {
    pub flags: u8,
    pub mask: Option<u8>,
}

impl TpmaSessionBuilder {
    /// A builder with no flags set and no mask supplied.
    pub fn new() -> (b: TpmaSessionBuilder)
        ensures
            b == (TpmaSessionBuilder { flags: 0u8, mask: None }),
    {
        TpmaSessionBuilder { flags: 0, mask: None }
    }

    /// Add a flag to the update.
    pub fn with_flag(self, flag: u8) -> (b: TpmaSessionBuilder)
        ensures
            b == (TpmaSessionBuilder { flags: self.flags | flag, ..self }),
    {
        TpmaSessionBuilder { flags: self.flags | flag, ..self }
    }

    /// Add a mask of flags the update affects.
    pub fn with_mask(self, mask: u8) -> (b: TpmaSessionBuilder)
        ensures
            b == (TpmaSessionBuilder {
                mask: Some(
                    (match self.mask {
                        Some(m) => m,
                        None => 0u8,
                    }) | mask,
                ),
                ..self
            }),
    {
        let current = match self.mask {
            Some(m) => m,
            None => 0,
        };
        TpmaSessionBuilder { mask: Some(current | mask), ..self }
    }

    /// Build the session-attribute update from the supplied flags and
    /// mask, the mask defaulting to the flags.
    pub fn build(self) -> (r: TpmaSession)
        ensures
            r == (TpmaSession {
                flags: self.flags,
                mask: match self.mask {
                    Some(m) => m,
                    None => self.flags,
                },
            }),
    {
        TpmaSession {
            flags: self.flags,
            mask: match self.mask {
                Some(m) => m,
                None => self.flags,
            },
        }
    }
}

} // verus!
