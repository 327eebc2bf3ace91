use vstd::prelude::*;

verus! {

/// Bit pattern of the 64-bit floating-point zero, the substitution value used
/// when the caller configures none.
pub const DEFAULT_NULL_VALUE: u64 = 0;

/// Configuration for one evaluation over the float32 kernel family.
///
/// Scalars are carried as raw bit patterns, which is all this crate ever
/// reads of them: `cmp` holds the comparison vector, one 32-bit pattern per
/// element, and `null_value` holds the 64-bit pattern of the scalar written
/// to the output when a kernel reports its result undefined.
#[derive(Clone)]
pub struct FloatKwargs {
    pub cmp: Vec<u32>,
    pub null_value: u64,
}

/// Configuration for one evaluation over the unsigned-byte kernel family.
///
/// `cmp` holds the comparison vector, one byte per element; `null_value`
/// holds the 64-bit pattern of the scalar written to the output when a
/// kernel reports its result undefined.
#[derive(Clone)]
pub struct BinaryKwargs {
    pub cmp: Vec<u8>,
    pub null_value: u64,
}

impl FloatKwargs {
    pub fn new(cmp: Vec<u32>, null_value: u64) -> (r: FloatKwargs)
        ensures
            r.cmp == cmp,
            r.null_value == null_value,
    {
        FloatKwargs { cmp, null_value }
    }

    /// Configuration with the default substitution value.
    pub fn with_default_null(cmp: Vec<u32>) -> (r: FloatKwargs)
        ensures
            r.cmp == cmp,
            r.null_value == DEFAULT_NULL_VALUE,
    {
        FloatKwargs { cmp, null_value: DEFAULT_NULL_VALUE }
    }
}

impl BinaryKwargs {
    pub fn new(cmp: Vec<u8>, null_value: u64) -> (r: BinaryKwargs)
        ensures
            r.cmp == cmp,
            r.null_value == null_value,
    {
        BinaryKwargs { cmp, null_value }
    }

    /// Configuration with the default substitution value.
    pub fn with_default_null(cmp: Vec<u8>) -> (r: BinaryKwargs)
        ensures
            r.cmp == cmp,
            r.null_value == DEFAULT_NULL_VALUE,
    {
        BinaryKwargs { cmp, null_value: DEFAULT_NULL_VALUE }
    }
}

/// The null-substitution policy on one kernel result: a defined result is
/// kept, an undefined one is replaced by the configured substitution value.
pub open spec fn substitute_spec(result: Option<u64>, null_value: u64) -> u64 {
    match result {
        Some(v) => v,
        None => null_value,
    }
}

/// Applies the null-substitution policy to one kernel result.
pub fn substitute(result: Option<u64>, null_value: u64) -> (r: u64)
    ensures
        r == substitute_spec(result, null_value),
{
    match result {
        Some(v) => v,
        None => null_value,
    }
}

} // verus!
