//! Error kinds reported by the builders and parsers.

use vstd::prelude::*;

verus! {

/// The kinds of validation failure that a builder or parser can report.
///
/// Every fallible operation in the crate returns one of these kinds to its
/// immediate caller; no partial structure is ever returned on failure.
#[derive(Clone, Copy, Debug, PartialEq, Eq, Structural, Hash)]
pub enum WrapperErrorKind {
    /// A mandatory field was never supplied to a builder.
    ParamsMissing,
    /// Supplied fields violate a cross-field consistency rule.
    InconsistentParams,
    /// A recognized but unimplemented or out-of-range value.
    UnsupportedParam,
    /// A value's length exceeds a fixed-capacity target buffer.
    WrongParamSize,
    /// A byte value does not correspond to any recognized enumeration member.
    InvalidParam,
}

} // verus!
