use vstd::prelude::*;
use crate::config::{substitute_spec, BinaryKwargs};

verus! {

/// The unsigned-byte kernel family: a closed set of distance kernels over
/// pairs of equal-length byte vectors.
#[derive(Clone, Copy, Debug, PartialEq, Eq, Structural)]
pub enum ByteKernel {
    Hamming,
    Jaccard,
}

// What simsimd's Hamming kernel returns for a pair of byte slices: the
// 64-bit pattern of the distance, or None when it reports no result.
pub uninterp spec fn hamming_of(cmp: Seq<u8>, row: Seq<u8>) -> Option<u64>;

// What simsimd's Jaccard kernel returns for a pair of byte slices: the
// 64-bit pattern of the distance, or None when it reports no result.
pub uninterp spec fn jaccard_of(cmp: Seq<u8>, row: Seq<u8>) -> Option<u64>;

/// Relies on simsimd::BinarySimilarity::hamming for u8: the result depends
/// on the two slices alone, and the call returns on every input.
#[verifier::external_body]
fn hamming_kernel(cmp: &Vec<u8>, row: &Vec<u8>) -> (r: Option<u64>)
    ensures
        r == hamming_of(cmp@, row@),
{
    <u8 as simsimd::BinarySimilarity>::hamming(cmp.as_slice(), row.as_slice())
        .map(|d| d.to_bits())
}

/// Relies on simsimd::BinarySimilarity::jaccard for u8: the result depends
/// on the two slices alone, and the call returns on every input.
#[verifier::external_body]
fn jaccard_kernel(cmp: &Vec<u8>, row: &Vec<u8>) -> (r: Option<u64>)
    ensures
        r == jaccard_of(cmp@, row@),
{
    <u8 as simsimd::BinarySimilarity>::jaccard(cmp.as_slice(), row.as_slice())
        .map(|d| d.to_bits())
}

/// The kernel registry for the unsigned-byte family: what the kernel under
/// each name returns for a pair of byte vectors.
pub open spec fn byte_kernel_of(kernel: ByteKernel, cmp: Seq<u8>, row: Seq<u8>) -> Option<u64> {
    match kernel {
        ByteKernel::Hamming => hamming_of(cmp, row),
        ByteKernel::Jaccard => jaccard_of(cmp, row),
    }
}

/// Routes one pair of byte vectors to the named kernel.
pub fn run_byte_kernel(kernel: ByteKernel, cmp: &Vec<u8>, row: &Vec<u8>) -> (r: Option<u64>)
    ensures
        r == byte_kernel_of(kernel, cmp@, row@),
{
    match kernel {
        ByteKernel::Hamming => hamming_kernel(cmp, row),
        ByteKernel::Jaccard => jaccard_kernel(cmp, row),
    }
}

impl BinaryKwargs {
    /// Hamming distance between the configured comparison vector and one
    /// row's buffer, with an undefined result replaced by the configured
    /// substitution value.  Returns the 64-bit pattern of the scalar.
    pub fn hamming(&self, arr: Vec<u8>) -> (r: u64)
        ensures
            r == substitute_spec(hamming_of(self.cmp@, arr@), self.null_value),
    {
        crate::config::substitute(hamming_kernel(&self.cmp, &arr), self.null_value)
    }

    /// Jaccard distance between the configured comparison vector and one
    /// row's buffer, with an undefined result replaced by the configured
    /// substitution value.  Returns the 64-bit pattern of the scalar.
    pub fn jaccard(&self, arr: Vec<u8>) -> (r: u64)
        ensures
            r == substitute_spec(jaccard_of(self.cmp@, arr@), self.null_value),
    {
        crate::config::substitute(jaccard_kernel(&self.cmp, &arr), self.null_value)
    }
}

} // verus!
