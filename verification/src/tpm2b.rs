//! Fixed-capacity sized buffers (the TPM2B family) and helpers for
//! zero-filling and zero-padding them.
//!
//! On the wire each of these is a 16-bit size field followed by a
//! fixed-size byte array; here the array is a vector whose length always
//! equals the fixed capacity, with the size field recording how many
//! leading bytes are meaningful.

use vstd::prelude::*;

verus! {

/// Capacity in bytes of a digest buffer (the largest hash the TPM holds).
pub const TPM2_MAX_DIGEST_BYTES: usize = 64;

/// Capacity in bytes of an RSA public-key or RSA signature buffer.
pub const TPM2_MAX_RSA_KEY_BYTES: usize = 512;

/// Capacity in bytes of one ECC parameter (a coordinate or a signature
/// component).
pub const TPM2_MAX_ECC_KEY_BYTES: usize = 128;

/// The all-zero byte sequence of length `n`.
pub open spec fn spec_zero_bytes(n: int) -> Seq<u8> {
    Seq::new(n as nat, |i: int| 0u8)
}

/// The sequence `data` padded with zero bytes up to length `n`.
pub open spec fn spec_zero_padded(data: Seq<u8>, n: int) -> Seq<u8> {
    Seq::new(n as nat, |i: int| if i < data.len() { data[i] } else { 0u8 })
}

/// An all-zero byte vector of length `len`.
pub fn zero_vec(len: usize) -> (v: Vec<u8>)
    ensures
        v@ == spec_zero_bytes(len as int),
{
    let mut v: Vec<u8> = Vec::new();
    let mut i: usize = 0;
    while i < len
        invariant
            i <= len,
            v@ =~= spec_zero_bytes(i as int),
        decreases len - i,
    {
        v.push(0);
        i = i + 1;
        proof {
            assert(v@ =~= spec_zero_bytes(i as int));
        }
    }
    proof {
        assert(v@ =~= spec_zero_bytes(len as int));
    }
    v
}

/// A copy of `data` padded with zero bytes up to length `len`.
pub fn zero_padded_vec(data: &Vec<u8>, len: usize) -> (v: Vec<u8>)
    requires
        data@.len() <= len,
    ensures
        v@ == spec_zero_padded(data@, len as int),
{
    let mut v: Vec<u8> = Vec::new();
    let mut i: usize = 0;
    while i < len
        invariant
            i <= len,
            data@.len() <= len,
            v@ =~= spec_zero_padded(data@, len as int).take(i as int),
        decreases len - i,
    {
        if i < data.len() {
            let b = data[i];
            v.push(b);
        } else {
            v.push(0);
        }
        i = i + 1;
        proof {
            assert(v@ =~= spec_zero_padded(data@, len as int).take(i as int));
        }
    }
    proof {
        assert(v@ =~= spec_zero_padded(data@, len as int));
    }
    v
}

/// The bytes of a fixed-size array as a vector.
pub fn array_to_vec<const N: usize>(src: &[u8; N]) -> (v: Vec<u8>)
    ensures
        v@ == src@,
{
    let mut v: Vec<u8> = Vec::new();
    let mut i: usize = 0;
    while i < N
        invariant
            i <= N,
            src@.len() == N,
            v@ =~= src@.take(i as int),
        decreases N - i,
    {
        let b = src[i];
        v.push(b);
        i = i + 1;
        proof {
            assert(v@ =~= src@.take(i as int));
        }
    }
    proof {
        assert(v@ =~= src@);
    }
    v
}

/// A byte-for-byte copy of `src`.
pub fn copy_bytes(src: &Vec<u8>) -> (v: Vec<u8>)
    ensures
        v@ == src@,
{
    let mut v: Vec<u8> = Vec::new();
    let mut i: usize = 0;
    while i < src.len()
        invariant
            i <= src@.len(),
            v@ =~= src@.take(i as int),
        decreases src@.len() - i,
    {
        let b = src[i];
        v.push(b);
        i = i + 1;
        proof {
            assert(v@ =~= src@.take(i as int));
        }
    }
    proof {
        assert(v@ =~= src@);
    }
    v
}

/// A copy of the first `n` bytes of `src`.
pub fn prefix_bytes(src: &Vec<u8>, n: usize) -> (v: Vec<u8>)
    requires
        n <= src@.len(),
    ensures
        v@ == src@.take(n as int),
{
    let mut v: Vec<u8> = Vec::new();
    let mut i: usize = 0;
    while i < n
        invariant
            i <= n <= src@.len(),
            v@ =~= src@.take(i as int),
        decreases n - i,
    {
        let b = src[i];
        v.push(b);
        i = i + 1;
        proof {
            assert(v@ =~= src@.take(i as int));
        }
    }
    v
}

/// A sized digest buffer.
#[derive(Clone, Debug)]
pub struct Tpm2bDigest {
    pub size: u16,
    pub buffer: Vec<u8>,
}

impl Tpm2bDigest {
    /// The buffer holds exactly its fixed capacity.
    pub open spec fn wf(&self) -> bool {
        self.buffer@.len() == TPM2_MAX_DIGEST_BYTES
    }

    /// An empty digest: zero size over an all-zero buffer.
    pub fn zeroed() -> (d: Tpm2bDigest)
        ensures
            d.wf(),
            d.size == 0,
            d.buffer@ == spec_zero_bytes(TPM2_MAX_DIGEST_BYTES as int),
    {
        Tpm2bDigest { size: 0, buffer: zero_vec(TPM2_MAX_DIGEST_BYTES) }
    }
}

/// A sized RSA key or RSA signature buffer.
#[derive(Clone, Debug)]
pub struct Tpm2bPublicKeyRsa {
    pub size: u16,
    pub buffer: Vec<u8>,
}

impl Tpm2bPublicKeyRsa {
    /// The buffer holds exactly its fixed capacity.
    pub open spec fn wf(&self) -> bool {
        self.buffer@.len() == TPM2_MAX_RSA_KEY_BYTES
    }

    /// An empty RSA buffer: zero size over an all-zero buffer.
    pub fn zeroed() -> (k: Tpm2bPublicKeyRsa)
        ensures
            k.wf(),
            k.size == 0,
            k.buffer@ == spec_zero_bytes(TPM2_MAX_RSA_KEY_BYTES as int),
    {
        Tpm2bPublicKeyRsa { size: 0, buffer: zero_vec(TPM2_MAX_RSA_KEY_BYTES) }
    }
}

/// A sized ECC parameter buffer.
#[derive(Clone, Debug)]
pub struct Tpm2bEccParameter {
    pub size: u16,
    pub buffer: Vec<u8>,
}

impl Tpm2bEccParameter {
    /// The buffer holds exactly its fixed capacity.
    pub open spec fn wf(&self) -> bool {
        self.buffer@.len() == TPM2_MAX_ECC_KEY_BYTES
    }

    /// An empty ECC parameter: zero size over an all-zero buffer.
    pub fn zeroed() -> (p: Tpm2bEccParameter)
        ensures
            p.wf(),
            p.size == 0,
            p.buffer@ == spec_zero_bytes(TPM2_MAX_ECC_KEY_BYTES as int),
    {
        Tpm2bEccParameter { size: 0, buffer: zero_vec(TPM2_MAX_ECC_KEY_BYTES) }
    }
}

/// A point on an elliptic curve, as two sized coordinate buffers.
#[derive(Clone, Debug)]
pub struct TpmsEccPoint {
    pub x: Tpm2bEccParameter,
    pub y: Tpm2bEccParameter,
}

impl TpmsEccPoint {
    /// Both coordinate buffers hold exactly their fixed capacity.
    pub open spec fn wf(&self) -> bool {
        self.x.wf() && self.y.wf()
    }

    /// The zero point: two empty coordinates.
    pub fn zeroed() -> (p: TpmsEccPoint)
        ensures
            p.wf(),
            p.x.size == 0,
            p.y.size == 0,
            p.x.buffer@ == spec_zero_bytes(TPM2_MAX_ECC_KEY_BYTES as int),
            p.y.buffer@ == spec_zero_bytes(TPM2_MAX_ECC_KEY_BYTES as int),
    {
        TpmsEccPoint { x: Tpm2bEccParameter::zeroed(), y: Tpm2bEccParameter::zeroed() }
    }
}

} // verus!
