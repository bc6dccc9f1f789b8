//! Saved object contexts: the wire context structure and the typed,
//! persistable wrapper around its opaque blob.

use vstd::prelude::*;
use crate::errors::WrapperErrorKind;
use crate::tpm2b::{prefix_bytes, spec_zero_padded, zero_padded_vec};

verus! {

/// Capacity in bytes of a context blob.
pub const TPM2_MAX_CONTEXT_DATA_BYTES: usize = 5188;

/// The sized buffer holding a saved context's opaque data.
#[derive(Clone, Debug)]
pub struct Tpm2bContextData {
    pub size: u16,
    pub buffer: Vec<u8>,
}

impl Tpm2bContextData {
    /// The buffer holds exactly its fixed capacity.
    pub open spec fn wf(&self) -> bool {
        self.buffer@.len() == TPM2_MAX_CONTEXT_DATA_BYTES
    }
}

/// A saved object context as exchanged with the TPM: sequence counter,
/// saved and hierarchy handles, and the sized opaque blob.
#[derive(Clone, Debug)]
pub struct TpmsContextRaw {
    pub sequence: u64,
    pub saved_handle: u32,
    pub hierarchy: u32,
    pub context_blob: Tpm2bContextData,
}

/// A typed wrapper over a saved object context.  The blob holds only its
/// meaningful bytes; the fixed-capacity padding of the wire structure is
/// stripped on the way in and restored on the way out.
#[derive(Clone, Debug)]
pub struct TpmsContext {
    pub sequence: u64,
    pub saved_handle: u32,
    pub hierarchy: u32,
    pub context_blob: Vec<u8>,
}

impl TpmsContext {
    /// Parse a typed context from the wire structure, truncating the blob
    /// to its declared size.  A declared size larger than the blob buffer
    /// is `WrongParamSize`.
    pub fn try_from(tss2_context: TpmsContextRaw) -> (r: Result<TpmsContext, WrapperErrorKind>)
        ensures
            r is Ok <==> tss2_context.context_blob.size <= tss2_context.context_blob.buffer@.len(),
            r matches Ok(c) ==> {
                &&& c.sequence == tss2_context.sequence
                &&& c.saved_handle == tss2_context.saved_handle
                &&& c.hierarchy == tss2_context.hierarchy
                &&& c.context_blob@ == tss2_context.context_blob.buffer@.take(
                    tss2_context.context_blob.size as int,
                )
            },
            r matches Err(e) ==> e == WrapperErrorKind::WrongParamSize,
    {
        let size = tss2_context.context_blob.size as usize;
        if size > tss2_context.context_blob.buffer.len() {
            return Err(WrapperErrorKind::WrongParamSize);
        }
        Ok(TpmsContext {
            sequence: tss2_context.sequence,
            saved_handle: tss2_context.saved_handle,
            hierarchy: tss2_context.hierarchy,
            context_blob: prefix_bytes(&tss2_context.context_blob.buffer, size),
        })
    }
}

impl TpmsContextRaw {
    /// Convert a typed context into the wire structure, zero-padding the
    /// blob into the fixed buffer.  A blob longer than the buffer's
    /// capacity is `WrongParamSize`.
    pub fn try_from(context: TpmsContext) -> (r: Result<TpmsContextRaw, WrapperErrorKind>)
        ensures
            r is Ok <==> context.context_blob@.len() <= TPM2_MAX_CONTEXT_DATA_BYTES,
            r matches Ok(t) ==> {
                &&& t.sequence == context.sequence
                &&& t.saved_handle == context.saved_handle
                &&& t.hierarchy == context.hierarchy
                &&& t.context_blob.size == context.context_blob@.len()
                &&& t.context_blob.buffer@ == spec_zero_padded(
                    context.context_blob@,
                    TPM2_MAX_CONTEXT_DATA_BYTES as int,
                )
                &&& t.context_blob.wf()
            },
            r matches Err(e) ==> e == WrapperErrorKind::WrongParamSize,
    {
        let buffer_size = context.context_blob.len();
        if buffer_size > TPM2_MAX_CONTEXT_DATA_BYTES {
            return Err(WrapperErrorKind::WrongParamSize);
        }
        let buffer = zero_padded_vec(&context.context_blob, TPM2_MAX_CONTEXT_DATA_BYTES);
        Ok(TpmsContextRaw {
            sequence: context.sequence,
            saved_handle: context.saved_handle,
            hierarchy: context.hierarchy,
            context_blob: Tpm2bContextData { size: buffer_size as u16, buffer },
        })
    }
}

/// Converting a typed context to the wire structure and parsing it back
/// returns the same handles, sequence, and a byte-identical blob; the
/// round trip succeeds whenever the conversion does.
pub proof fn lemma_context_round_trip(c: TpmsContext, t: TpmsContextRaw, back: TpmsContext)
    requires
        c.context_blob@.len() <= TPM2_MAX_CONTEXT_DATA_BYTES,
        t.sequence == c.sequence,
        t.saved_handle == c.saved_handle,
        t.hierarchy == c.hierarchy,
        t.context_blob.size == c.context_blob@.len(),
        t.context_blob.buffer@ == spec_zero_padded(
            c.context_blob@,
            TPM2_MAX_CONTEXT_DATA_BYTES as int,
        ),
        back.sequence == t.sequence,
        back.saved_handle == t.saved_handle,
        back.hierarchy == t.hierarchy,
        back.context_blob@ == t.context_blob.buffer@.take(t.context_blob.size as int),
    ensures
        t.context_blob.size <= t.context_blob.buffer@.len(),
        back.sequence == c.sequence,
        back.saved_handle == c.saved_handle,
        back.hierarchy == c.hierarchy,
        back.context_blob@ == c.context_blob@,
{
    assert(t.context_blob.buffer@.take(t.context_blob.size as int) =~= c.context_blob@);
}

} // verus!
