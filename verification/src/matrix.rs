//! The row-major matrix in which a trace is handed to the prover.
//!
//! The matrix type comes from `p3_matrix`. What it holds is stated through
//! `matrix_values` and `matrix_width`. `new_matrix` is the only place where
//! a matrix is made, and its contract is believed, not proved.

use crate::field::Felt;
use p3_matrix::dense::RowMajorMatrix;
use vstd::prelude::*;

verus! {

/// The dense matrix of `p3_matrix`. Nothing is read of its fields.
#[verifier::external_type_specification]
#[verifier::external_body]
#[verifier::reject_recursive_types(T)]
#[verifier::reject_recursive_types(V)]
pub struct ExDenseMatrix<T, V>(p3_matrix::dense::DenseMatrix<T, V>);

/// The cells of the matrix, row after row.
pub uninterp spec fn matrix_values(m: RowMajorMatrix<Felt>) -> Seq<Felt>;

/// The number of cells in a row of the matrix.
pub uninterp spec fn matrix_width(m: RowMajorMatrix<Felt>) -> nat;

/// `RowMajorMatrix::new`: the matrix that holds `values` unchanged, cut into
/// rows of `width` cells. The constructor rejects, in debug builds, a length
/// that is not a multiple of a nonzero width.
#[verifier::external_body]
pub(crate) fn new_matrix(values: Vec<Felt>, width: usize) -> (m: RowMajorMatrix<Felt>)
    requires
        width == 0 || values@.len() % (width as nat) == 0,
    ensures
        matrix_values(m) == values@,
        matrix_width(m) == width,
{
    RowMajorMatrix::new(values, width)
}

} // verus!
