//! The centroid matrix: a two-dimensional `ndarray` array whose cells are
//! binary64 bit patterns. Rows are centroids, columns are features.
//!
//! The array itself is opaque to the verifier. What the library knows of it is
//! stated by `grid_rows` and `grid_width`, and every fact about those two comes
//! from the four `ndarray` calls wrapped at the end of this file.

use crate::error::Error;
use vstd::prelude::*;

verus! {

/// A rectangular grid of bit patterns, stored in an `ndarray::Array2<u64>`.
#[verifier::external_body]
pub struct CentroidMatrix {
    cells: ndarray::Array2<u64>,
}

/// `ndarray::ShapeError`, the error of a shape that an array cannot take. The
/// library only tells it from success.
#[verifier::external_type_specification]
#[verifier::external_body]
pub struct ExShapeError(ndarray::ShapeError);

/// The rows of the array in index order, each row its cells in column order.
pub uninterp spec fn grid_rows(g: CentroidMatrix) -> Seq<Seq<u64>>;

/// The length of the array's second axis: how many cells each row has.
pub uninterp spec fn grid_width(g: CentroidMatrix) -> nat;

/// `values` cut into `rows` consecutive runs of `cols` cells.
pub open spec fn row_major(values: Seq<u64>, rows: nat, cols: nat) -> Seq<Seq<u64>> {
    Seq::new(rows, |i: int| values.subrange(i * cols, (i + 1) * cols))
}

/// The product of the axis lengths that are not zero. `ndarray` bounds this
/// number, not the cell count, when it accepts a shape.
pub open spec fn packed_extent(rows: usize, cols: usize) -> int {
    (if rows == 0 { 1int } else { rows as int }) * (if cols == 0 { 1int } else { cols as int })
}

/// The shapes that can be laid over `len` cells.
pub open spec fn shape_fits(rows: usize, cols: usize, len: nat) -> bool {
    rows * cols == len && packed_extent(rows, cols) <= isize::MAX
}

impl View for CentroidMatrix {
    type V = Seq<Seq<u64>>;

    open spec fn view(&self) -> Seq<Seq<u64>> {
        grid_rows(*self)
    }
}

impl CentroidMatrix {
    /// How many cells each row has.
    pub open spec fn width(&self) -> nat {
        grid_width(*self)
    }

    /// Every row has `width()` cells.
    pub open spec fn rectangular(&self) -> bool {
        forall|i: int| 0 <= i < self@.len() ==> (#[trigger] self@[i]).len() == self.width()
    }

    /// Lays `values` out row by row over a `rows` by `cols` grid. The shape
    /// must cover the values exactly.
    pub fn from_values(rows: usize, cols: usize, values: Vec<u64>) -> (r: Result<
        CentroidMatrix,
        Error,
    >)
        ensures
            match r {
                Ok(g) => shape_fits(rows, cols, values@.len()) && g@ == row_major(
                    values@,
                    rows as nat,
                    cols as nat,
                ) && g.width() == cols && g.rectangular(),
                Err(e) => e == Error::InvalidConfiguration && !shape_fits(
                    rows,
                    cols,
                    values@.len(),
                ),
            },
    {
        match array_from_shape_vec(rows, cols, values) {
            Ok(g) => {
                let _ = array_ncols(&g);
                Ok(g)
            },
            Err(_) => Err(Error::InvalidConfiguration),
        }
    }

    /// The number of centroids.
    pub fn rows(&self) -> (r: usize)
        ensures
            r == self@.len(),
    {
        array_nrows(self)
    }

    /// The number of features, the same for every centroid.
    pub fn cols(&self) -> (r: usize)
        ensures
            r == self.width(),
            self.rectangular(),
    {
        array_ncols(self)
    }

    /// Feature `feature` of centroid `centroid`, where the grid has such a
    /// cell.
    pub fn get(&self, centroid: usize, feature: usize) -> (r: Option<u64>)
        ensures
            r == if centroid < self@.len() && feature < self.width() {
                Some(self@[centroid as int][feature as int])
            } else {
                None
            },
    {
        if centroid < array_nrows(self) && feature < array_ncols(self) {
            Some(array_get(self, centroid, feature))
        } else {
            None
        }
    }
}

/// `ndarray::Array2::from_shape_vec` with a row-major shape. It accepts the
/// shape exactly when the shape's cell count is the number of values and the
/// product of its non-zero axis lengths fits in `isize`; the array then holds
/// the values row by row.
#[verifier::external_body]
fn array_from_shape_vec(rows: usize, cols: usize, values: Vec<u64>) -> (r: Result<
    CentroidMatrix,
    ndarray::ShapeError,
>)
    ensures
        r is Ok <==> shape_fits(rows, cols, values@.len()),
        r matches Ok(g) ==> grid_rows(g) == row_major(values@, rows as nat, cols as nat)
            && grid_width(g) == cols,
{
    match ndarray::Array2::from_shape_vec((rows, cols), values) {
        Ok(cells) => Ok(CentroidMatrix { cells }),
        Err(e) => Err(e),
    }
}

/// `ndarray::ArrayBase::nrows`: the length of the first axis.
#[verifier::external_body]
fn array_nrows(g: &CentroidMatrix) -> (r: usize)
    ensures
        r == grid_rows(*g).len(),
{
    g.cells.nrows()
}

/// `ndarray::ArrayBase::ncols`: the length of the second axis, which is the
/// length of every row.
#[verifier::external_body]
fn array_ncols(g: &CentroidMatrix) -> (r: usize)
    ensures
        r == grid_width(*g),
        forall|i: int| 0 <= i < grid_rows(*g).len() ==> (#[trigger] grid_rows(*g)[i]).len() == r,
{
    g.cells.ncols()
}

/// Indexing an `ndarray` array by `[row, column]`. It panics outside the
/// array, so both indices are required to be inside.
#[verifier::external_body]
pub(crate) fn array_get(g: &CentroidMatrix, row: usize, col: usize) -> (r: u64)
    requires
        row < grid_rows(*g).len(),
        col < grid_rows(*g)[row as int].len(),
    ensures
        r == grid_rows(*g)[row as int][col as int],
{
    g.cells[[row, col]]
}

} // verus!
