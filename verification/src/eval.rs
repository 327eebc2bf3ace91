use vstd::prelude::*;
use crate::column::{ByteColumn, FloatColumn, WidthMismatch};
use crate::config::{substitute, substitute_spec, BinaryKwargs, FloatKwargs};
use crate::kernels::{byte_kernel_of, run_byte_kernel, ByteKernel};

verus! {

/// One output slot of the unsigned-byte dispatcher: null rows stay null;
/// for a present row the named kernel runs on (cmp, buffer) and an
/// undefined result is replaced by the substitution value.
pub open spec fn byte_row_output(
    kernel: ByteKernel,
    cmp: Seq<u8>,
    row: Option<Vec<u8>>,
    null_value: u64,
) -> Option<u64> {
    match row {
        Option::None => Option::None,
        Option::Some(buf) => Option::Some(
            substitute_spec(byte_kernel_of(kernel, cmp, buf@), null_value),
        ),
    }
}

/// Everything the unsigned-byte dispatcher promises of its result: the
/// evaluation fails exactly when the comparison vector's length disagrees
/// with the column's fixed width, the error carries both lengths, and a
/// successful output has one slot per input row, null exactly where the
/// input is null, and each present slot as `byte_row_output` gives it.
pub open spec fn byte_eval_post(
    kernel: ByteKernel,
    cmp: Seq<u8>,
    width: usize,
    rows: Seq<Option<Vec<u8>>>,
    null_value: u64,
    r: Result<Vec<Option<u64>>, WidthMismatch>,
) -> bool {
    &&& (r is Ok <==> cmp.len() == width)
    &&& (r matches Err(e) ==> e.expected == cmp.len() && e.found == width)
    &&& (r matches Ok(out) ==> {
        &&& out@.len() == rows.len()
        &&& (forall|i: int|
            0 <= i < rows.len() ==> #[trigger] out@[i] == byte_row_output(
                kernel,
                cmp,
                rows[i],
                null_value,
            ))
        &&& (forall|i: int| 0 <= i < rows.len() ==> (#[trigger] out@[i] is Some <==> rows[i] is Some))
    })
}

/// Evaluates the named unsigned-byte kernel over a whole column: validates
/// the fixed width against the comparison vector, then walks the rows in
/// order, skipping null rows and reducing each kernel result under the
/// null-substitution policy.  No output is produced on a width mismatch.
pub fn evaluate_byte(kernel: ByteKernel, column: &ByteColumn, kwargs: &BinaryKwargs) -> (r: Result<
    Vec<Option<u64>>,
    WidthMismatch,
>)
    requires
        column.wf(),
    ensures
        byte_eval_post(kernel, kwargs.cmp@, column.width, column.rows@, kwargs.null_value, r),
{
    if kwargs.cmp.len() != column.width {
        return Err(WidthMismatch { expected: kwargs.cmp.len(), found: column.width });
    }
    let n = column.rows.len();
    let mut out: Vec<Option<u64>> = Vec::new();
    let mut i: usize = 0;
    while i < n
        invariant
            n == column.rows@.len(),
            i <= n,
            out@.len() == i,
            forall|j: int|
                0 <= j < i ==> #[trigger] out@[j] == byte_row_output(
                    kernel,
                    kwargs.cmp@,
                    column.rows@[j],
                    kwargs.null_value,
                ),
        decreases n - i,
    {
        match &column.rows[i] {
            None => {
                out.push(None);
            }
            Some(buf) => {
                let result = run_byte_kernel(kernel, &kwargs.cmp, buf);
                out.push(Some(substitute(result, kwargs.null_value)));
            }
        }
        i += 1;
    }
    Ok(out)
}

/// Hamming distance of every row against the configured comparison vector.
pub fn hamming(column: &ByteColumn, kwargs: &BinaryKwargs) -> (r: Result<
    Vec<Option<u64>>,
    WidthMismatch,
>)
    requires
        column.wf(),
    ensures
        byte_eval_post(
            ByteKernel::Hamming,
            kwargs.cmp@,
            column.width,
            column.rows@,
            kwargs.null_value,
            r,
        ),
{
    evaluate_byte(ByteKernel::Hamming, column, kwargs)
}

/// Jaccard distance of every row against the configured comparison vector.
pub fn jaccard(column: &ByteColumn, kwargs: &BinaryKwargs) -> (r: Result<
    Vec<Option<u64>>,
    WidthMismatch,
>)
    requires
        column.wf(),
    ensures
        byte_eval_post(
            ByteKernel::Jaccard,
            kwargs.cmp@,
            column.width,
            column.rows@,
            kwargs.null_value,
            r,
        ),
{
    evaluate_byte(ByteKernel::Jaccard, column, kwargs)
}

/// One output slot of the float32 dispatcher, given the kernel's reported
/// result for that row: null rows stay null; for a present row an undefined
/// result is replaced by the substitution value.
pub open spec fn float_row_output(
    row: Option<Vec<u32>>,
    result: Option<u64>,
    null_value: u64,
) -> Option<u64> {
    match row {
        Option::None => Option::None,
        Option::Some(_) => Option::Some(substitute_spec(result, null_value)),
    }
}

/// Everything the float32 dispatcher promises of its result, given the
/// per-row kernel results: failure exactly on a width mismatch, with both
/// lengths in the error; on success one slot per input row, null exactly
/// where the input is null, and each present slot as `float_row_output`
/// gives it.
pub open spec fn float_eval_post(
    cmp_len: usize,
    width: usize,
    rows: Seq<Option<Vec<u32>>>,
    results: Seq<Option<u64>>,
    null_value: u64,
    r: Result<Vec<Option<u64>>, WidthMismatch>,
) -> bool {
    &&& (r is Ok <==> cmp_len == width)
    &&& (r matches Err(e) ==> e.expected == cmp_len && e.found == width)
    &&& (r matches Ok(out) ==> {
        &&& out@.len() == rows.len()
        &&& (forall|i: int|
            0 <= i < rows.len() ==> #[trigger] out@[i] == float_row_output(
                rows[i],
                results[i],
                null_value,
            ))
        &&& (forall|i: int| 0 <= i < rows.len() ==> (#[trigger] out@[i] is Some <==> rows[i] is Some))
    })
}

/// Assembles one full float32 evaluation from per-row kernel results.
///
/// The float32 kernels compute on floating-point buffers, which this crate
/// cannot run itself; the caller runs the selected kernel once per present
/// row and hands the reported results in row order here.  Entries at null
/// rows are never read: null rows stay null without consulting the kernel.
/// Width validation and the null policy are decided here, for every value
/// the kernels may report.
pub fn evaluate_float(column: &FloatColumn, kwargs: &FloatKwargs, results: &Vec<Option<u64>>) -> (r:
    Result<Vec<Option<u64>>, WidthMismatch>)
    requires
        column.wf(),
        results@.len() == column.rows@.len(),
    ensures
        float_eval_post(
            kwargs.cmp.len(),
            column.width,
            column.rows@,
            results@,
            kwargs.null_value,
            r,
        ),
{
    if kwargs.cmp.len() != column.width {
        return Err(WidthMismatch { expected: kwargs.cmp.len(), found: column.width });
    }
    let n = column.rows.len();
    let mut out: Vec<Option<u64>> = Vec::new();
    let mut i: usize = 0;
    while i < n
        invariant
            n == column.rows@.len(),
            results@.len() == n,
            i <= n,
            out@.len() == i,
            forall|j: int|
                0 <= j < i ==> #[trigger] out@[j] == float_row_output(
                    column.rows@[j],
                    results@[j],
                    kwargs.null_value,
                ),
        decreases n - i,
    {
        match &column.rows[i] {
            None => {
                out.push(None);
            }
            Some(_) => {
                out.push(Some(substitute(results[i], kwargs.null_value)));
            }
        }
        i += 1;
    }
    Ok(out)
}

impl FloatKwargs {
    /// Applies the null-substitution policy to one reported kernel result.
    pub fn reduce(&self, result: Option<u64>) -> (r: u64)
        ensures
            r == substitute_spec(result, self.null_value),
    {
        substitute(result, self.null_value)
    }
}

/// Law: for a present row whose kernel result is defined, the dispatcher
/// passes the kernel's own value through unchanged — the substitution path
/// is never taken when the metric is defined.
pub proof fn lemma_byte_defined_passthrough(
    kernel: ByteKernel,
    cmp: Seq<u8>,
    buf: Vec<u8>,
    null_value: u64,
)
    requires
        byte_kernel_of(kernel, cmp, buf@) is Some,
    ensures
        byte_row_output(kernel, cmp, Some(buf), null_value) == Some(
            byte_kernel_of(kernel, cmp, buf@)->Some_0,
        ),
{
}

/// Law: for a present row whose kernel result is undefined, the output slot
/// is non-null and holds the configured substitution value.
pub proof fn lemma_byte_undefined_substitutes(
    kernel: ByteKernel,
    cmp: Seq<u8>,
    buf: Vec<u8>,
    null_value: u64,
)
    requires
        byte_kernel_of(kernel, cmp, buf@) is None,
    ensures
        byte_row_output(kernel, cmp, Some(buf), null_value) == Some(null_value),
{
}

/// Law: for a present row whose reported kernel result is defined, the
/// dispatcher passes that value through unchanged.
pub proof fn lemma_float_defined_passthrough(buf: Vec<u32>, result: u64, null_value: u64)
    ensures
        float_row_output(Some(buf), Some(result), null_value) == Some(result),
{
}

/// Law: for a present row whose reported kernel result is undefined, the
/// output slot is non-null and holds the configured substitution value.
pub proof fn lemma_float_undefined_substitutes(buf: Vec<u32>, null_value: u64)
    ensures
        float_row_output(Some(buf), None, null_value) == Some(null_value),
{
}

/// Law: the unsigned-byte dispatcher is deterministic — any two results
/// that its contract admits for the same column and configuration agree,
/// row for row.
pub proof fn lemma_byte_eval_deterministic(
    kernel: ByteKernel,
    cmp: Seq<u8>,
    width: usize,
    rows: Seq<Option<Vec<u8>>>,
    null_value: u64,
    r1: Result<Vec<Option<u64>>, WidthMismatch>,
    r2: Result<Vec<Option<u64>>, WidthMismatch>,
)
    requires
        byte_eval_post(kernel, cmp, width, rows, null_value, r1),
        byte_eval_post(kernel, cmp, width, rows, null_value, r2),
    ensures
        r1 is Ok <==> r2 is Ok,
        (r1 matches Ok(a) ==> (r2 matches Ok(b) ==> a@ == b@)),
        (r1 matches Err(e1) ==> (r2 matches Err(e2) ==> e1 == e2)),
{
    if r1 is Ok && r2 is Ok {
        assert(r1->Ok_0@ =~= r2->Ok_0@);
    }
    if r1 is Err && r2 is Err {
        let e1 = r1->Err_0;
        let e2 = r2->Err_0;
        assert(e1.expected == e2.expected);
        assert(e1.found == e2.found);
        assert(e1 == e2);
    }
}

/// Law: the float32 dispatcher is deterministic — any two results that its
/// contract admits for the same column, configuration, and reported kernel
/// results agree, row for row.
pub proof fn lemma_float_eval_deterministic(
    cmp_len: usize,
    width: usize,
    rows: Seq<Option<Vec<u32>>>,
    results: Seq<Option<u64>>,
    null_value: u64,
    r1: Result<Vec<Option<u64>>, WidthMismatch>,
    r2: Result<Vec<Option<u64>>, WidthMismatch>,
)
    requires
        float_eval_post(cmp_len, width, rows, results, null_value, r1),
        float_eval_post(cmp_len, width, rows, results, null_value, r2),
    ensures
        r1 is Ok <==> r2 is Ok,
        (r1 matches Ok(a) ==> (r2 matches Ok(b) ==> a@ == b@)),
        (r1 matches Err(e1) ==> (r2 matches Err(e2) ==> e1 == e2)),
{
    if r1 is Ok && r2 is Ok {
        assert(r1->Ok_0@ =~= r2->Ok_0@);
    }
    if r1 is Err && r2 is Err {
        let e1 = r1->Err_0;
        let e2 = r2->Err_0;
        assert(e1.expected == e2.expected);
        assert(e1.found == e2.found);
        assert(e1 == e2);
    }
}

/// The version string this crate exposes for diagnostics.
pub fn version() -> (s: &'static str)
    ensures
        s@ == "0.1.0"@,
{
    "0.1.0"
}

} // verus!

