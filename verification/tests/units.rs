use vecsim::column::{ByteColumn, FloatColumn};
use vecsim::config::{substitute, BinaryKwargs, FloatKwargs, DEFAULT_NULL_VALUE};
use vecsim::eval::version;

#[test]
fn default_null_value_is_zero() {
    assert_eq!(DEFAULT_NULL_VALUE, 0.0f64.to_bits());
    let kwargs = FloatKwargs::with_default_null(vec![1, 2, 3]);
    assert_eq!(kwargs.null_value, 0.0f64.to_bits());
    let bkwargs = BinaryKwargs::with_default_null(vec![1, 2, 3]);
    assert_eq!(bkwargs.null_value, 0.0f64.to_bits());
}

#[test]
fn configured_null_value_is_kept() {
    let kwargs = FloatKwargs::new(vec![7], (-1.0f64).to_bits());
    assert_eq!(kwargs.cmp, vec![7]);
    assert_eq!(f64::from_bits(kwargs.null_value), -1.0);
    let bkwargs = BinaryKwargs::new(vec![7], 42);
    assert_eq!(bkwargs.cmp, vec![7]);
    assert_eq!(bkwargs.null_value, 42);
}

#[test]
fn substitute_keeps_defined_results() {
    assert_eq!(substitute(Some(11), 99), 11);
    assert_eq!(substitute(None, 99), 99);
}

#[test]
fn reduce_applies_null_policy() {
    let kwargs = FloatKwargs::new(vec![], (-2.5f64).to_bits());
    assert_eq!(kwargs.reduce(Some(5)), 5);
    assert_eq!(f64::from_bits(kwargs.reduce(None)), -2.5);
}

#[test]
fn binary_kwargs_row_kernels() {
    let kwargs = BinaryKwargs::with_default_null(vec![1, 1, 0, 0]);
    assert_eq!(f64::from_bits(kwargs.hamming(vec![1, 0, 0, 0])), 1.0);
    assert_eq!(f64::from_bits(kwargs.jaccard(vec![1, 0, 0, 0])), 0.5);
    assert_eq!(f64::from_bits(kwargs.hamming(vec![1, 1, 0, 0])), 0.0);
}

#[test]
fn binary_kwargs_substitutes_on_length_mismatch() {
    // The kernel itself reports no result when the buffer's length differs
    // from the comparison vector's, and the configured value takes its place.
    let kwargs = BinaryKwargs::new(vec![1, 1, 0, 0], (-3.0f64).to_bits());
    assert_eq!(f64::from_bits(kwargs.hamming(vec![1, 0])), -3.0);
    assert_eq!(f64::from_bits(kwargs.jaccard(vec![1, 0])), -3.0);
}

#[test]
fn float_column_rejects_ragged_rows() {
    assert!(FloatColumn::new(3, vec![Some(vec![1, 2])]).is_none());
    assert!(FloatColumn::new(2, vec![Some(vec![1, 2]), Some(vec![1, 2, 3])]).is_none());
    let c = FloatColumn::new(2, vec![Some(vec![1, 2]), None]).unwrap();
    assert_eq!(c.width, 2);
    assert_eq!(c.rows.len(), 2);
}

#[test]
fn byte_column_rejects_ragged_rows() {
    assert!(ByteColumn::new(4, vec![Some(vec![1, 2])]).is_none());
    let c = ByteColumn::new(0, vec![Some(vec![]), None]).unwrap();
    assert_eq!(c.width, 0);
}

#[test]
fn version_string() {
    assert_eq!(version(), "0.1.0");
}
