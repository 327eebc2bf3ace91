//! Vector-similarity evaluation over columns of fixed-width numeric arrays.
//!
//! Every row of a column holds either null or an array of the column's fixed
//! width; each present row is compared against one caller-fixed comparison
//! vector by a named distance kernel, producing one nullable 64-bit scalar
//! per row.  Scalars cross this crate as raw bit patterns: the dispatch,
//! width validation, and null policy never read them as numbers.
//!
//! `config` holds the caller's comparison vector and substitution value;
//! `column` the bound input column and the width-mismatch error; `kernels`
//! the kernel registry and the trusted calls into simsimd; `eval` the row
//! dispatcher and the laws it obeys.

pub mod column;
pub mod config;
pub mod eval;
pub mod kernels;
