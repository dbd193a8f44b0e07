//! Input matrices: `rusty_machine::linalg::Matrix<u64>`, one row per sample
//! and one column per feature, each cell a binary64 bit pattern.
//!
//! The matrix is opaque to the verifier. What the library knows of it is
//! stated by `table_rows` and `table_width`, and every fact about those two
//! comes from the four calls wrapped below.

use crate::grid::row_major;
use rusty_machine::linalg::BaseMatrix;
use rusty_machine::linalg::Matrix;
use vstd::prelude::*;

verus! {

/// `rusty_machine::linalg::Matrix`, a dense row-major matrix. The library
/// reads it only through the calls wrapped below.
#[verifier::external_type_specification]
#[verifier::external_body]
#[verifier::reject_recursive_types(T)]
pub struct ExMatrix<T>(Matrix<T>);

/// The rows of the matrix in index order, each row its cells in column order.
pub uninterp spec fn table_rows(m: Matrix<u64>) -> Seq<Seq<u64>>;

/// The column count of the matrix: how many cells each row has.
pub uninterp spec fn table_width(m: Matrix<u64>) -> nat;

/// Every row of the matrix has `table_width` cells.
pub open spec fn table_rectangular(m: Matrix<u64>) -> bool {
    forall|i: int| 0 <= i < table_rows(m).len() ==> (#[trigger] table_rows(m)[i]).len()
        == table_width(m)
}

/// `Matrix::new`: a matrix over `data`, read row by row. It panics unless the
/// shape covers the data exactly, which is required here.
#[verifier::external_body]
pub(crate) fn matrix_new(rows: usize, cols: usize, data: Vec<u64>) -> (m: Matrix<u64>)
    requires
        rows * cols == data@.len(),
    ensures
        table_rows(m) == row_major(data@, rows as nat, cols as nat),
        table_width(m) == cols,
{
    Matrix::new(rows, cols, data)
}

/// `BaseMatrix::rows`: the row count.
#[verifier::external_body]
pub(crate) fn matrix_rows(m: &Matrix<u64>) -> (r: usize)
    ensures
        r == table_rows(*m).len(),
{
    m.rows()
}

/// `BaseMatrix::cols`: the column count, which is the length of every row.
#[verifier::external_body]
pub(crate) fn matrix_cols(m: &Matrix<u64>) -> (r: usize)
    ensures
        r == table_width(*m),
        forall|i: int| 0 <= i < table_rows(*m).len() ==> (#[trigger] table_rows(*m)[i]).len() == r,
{
    m.cols()
}

/// Indexing a matrix by `[row, column]`. It panics outside the matrix, so
/// both indices are required to be inside.
#[verifier::external_body]
pub(crate) fn matrix_get(m: &Matrix<u64>, row: usize, col: usize) -> (r: u64)
    requires
        row < table_rows(*m).len(),
        col < table_rows(*m)[row as int].len(),
    ensures
        r == table_rows(*m)[row as int][col as int],
{
    m[[row, col]]
}

} // verus!
