//! Type-safe construction and parsing of TPM 2.0 command and response
//! structures.
//!
//! The crate offers builders that assemble tagged, union-typed,
//! fixed-capacity binary structures under the consistency rules of the
//! TPM 2.0 specification, and parsers that reconstruct typed domain values
//! (signatures, saved contexts, PCR selections, public-key descriptors)
//! from those structures.  Every union of the wire format is represented
//! here as a tagged enum, so reading a structure never trusts an external
//! tag to select a union field: a tag that does not match its payload is
//! reported as an error instead.

pub mod algorithms;
pub mod attributes;
pub mod context;
pub mod errors;
pub mod hierarchy;
pub mod params;
pub mod pcr;
pub mod public;
pub mod schemes;
pub mod session;
pub mod signatures;
pub mod sym;
pub mod tpm2b;
