//! The four TPM object hierarchies and their two numeric handle spaces:
//! resource-manager handles and raw TPM permanent handles.

use vstd::prelude::*;
use crate::errors::WrapperErrorKind;

verus! {

// Raw TPM permanent handles of the hierarchies.
pub const TPM2_RH_OWNER: u32 = 0x4000_0001;
pub const TPM2_RH_NULL: u32 = 0x4000_0007;
pub const TPM2_RH_ENDORSEMENT: u32 = 0x4000_000B;
pub const TPM2_RH_PLATFORM: u32 = 0x4000_000C;

// Resource-manager handles of the hierarchies.
pub const ESYS_TR_RH_OWNER: u32 = 0x101;
pub const ESYS_TR_RH_NULL: u32 = 0x107;
pub const ESYS_TR_RH_ENDORSEMENT: u32 = 0x10B;
pub const ESYS_TR_RH_PLATFORM: u32 = 0x10C;

/// A TPM object hierarchy.
#[derive(Clone, Copy, Debug, PartialEq, Eq, Structural, Hash)]
pub enum Hierarchy {
    Null,
    Owner,
    Platform,
    Endorsement,
}

/// The resource-manager handle of each hierarchy.
pub open spec fn spec_esys_rh(h: Hierarchy) -> u32 {
    match h {
        Hierarchy::Null => ESYS_TR_RH_NULL,
        Hierarchy::Owner => ESYS_TR_RH_OWNER,
        Hierarchy::Platform => ESYS_TR_RH_PLATFORM,
        Hierarchy::Endorsement => ESYS_TR_RH_ENDORSEMENT,
    }
}

/// The raw TPM handle of each hierarchy.
pub open spec fn spec_rh(h: Hierarchy) -> u32 {
    match h {
        Hierarchy::Null => TPM2_RH_NULL,
        Hierarchy::Owner => TPM2_RH_OWNER,
        Hierarchy::Platform => TPM2_RH_PLATFORM,
        Hierarchy::Endorsement => TPM2_RH_ENDORSEMENT,
    }
}

/// The hierarchy a handle denotes, in either handle space, if any.
pub open spec fn spec_hierarchy_of_handle(handle: u32) -> Option<Hierarchy> {
    if handle == TPM2_RH_NULL || handle == ESYS_TR_RH_NULL {
        Some(Hierarchy::Null)
    } else if handle == TPM2_RH_OWNER || handle == ESYS_TR_RH_OWNER {
        Some(Hierarchy::Owner)
    } else if handle == TPM2_RH_PLATFORM || handle == ESYS_TR_RH_PLATFORM {
        Some(Hierarchy::Platform)
    } else if handle == TPM2_RH_ENDORSEMENT || handle == ESYS_TR_RH_ENDORSEMENT {
        Some(Hierarchy::Endorsement)
    } else {
        None
    }
}

impl Hierarchy {
    /// The resource-manager handle for the hierarchy.
    pub fn esys_rh(self) -> (handle: u32)
        ensures
            handle == spec_esys_rh(self),
    {
        match self {
            Hierarchy::Null => ESYS_TR_RH_NULL,
            Hierarchy::Owner => ESYS_TR_RH_OWNER,
            Hierarchy::Platform => ESYS_TR_RH_PLATFORM,
            Hierarchy::Endorsement => ESYS_TR_RH_ENDORSEMENT,
        }
    }

    /// The raw TPM handle for the hierarchy.
    pub fn rh(self) -> (handle: u32)
        ensures
            handle == spec_rh(self),
    {
        match self {
            Hierarchy::Null => TPM2_RH_NULL,
            Hierarchy::Owner => TPM2_RH_OWNER,
            Hierarchy::Platform => TPM2_RH_PLATFORM,
            Hierarchy::Endorsement => TPM2_RH_ENDORSEMENT,
        }
    }

    /// The hierarchy a handle denotes, accepting either handle space; a
    /// handle in neither space is `InconsistentParams`.
    pub fn try_from(handle: u32) -> (r: Result<Hierarchy, WrapperErrorKind>)
        ensures
            r matches Ok(h) ==> spec_hierarchy_of_handle(handle) == Some(h),
            r is Err <==> spec_hierarchy_of_handle(handle) is None,
            r matches Err(e) ==> e == WrapperErrorKind::InconsistentParams,
    {
        if handle == TPM2_RH_NULL || handle == ESYS_TR_RH_NULL {
            Ok(Hierarchy::Null)
        } else if handle == TPM2_RH_OWNER || handle == ESYS_TR_RH_OWNER {
            Ok(Hierarchy::Owner)
        } else if handle == TPM2_RH_PLATFORM || handle == ESYS_TR_RH_PLATFORM {
            Ok(Hierarchy::Platform)
        } else if handle == TPM2_RH_ENDORSEMENT || handle == ESYS_TR_RH_ENDORSEMENT {
            Ok(Hierarchy::Endorsement)
        } else {
            Err(WrapperErrorKind::InconsistentParams)
        }
    }
}

/// Both handle mappings round-trip: a hierarchy is recovered from either
/// of its handles, in either handle space.
pub proof fn lemma_hierarchy_round_trip(h: Hierarchy)
    ensures
        spec_hierarchy_of_handle(spec_rh(h)) == Some(h),
        spec_hierarchy_of_handle(spec_esys_rh(h)) == Some(h),
{
}

} // verus!
