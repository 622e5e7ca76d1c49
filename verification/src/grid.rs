//! The pixel buffer: an `nalgebra::DMatrix` of colors behind trusted
//! wrappers.
//!
//! Verus sees the buffer as an opaque value; `grid_of` names the pixel rows
//! it holds and `grid_cols_of` the column count it was built with.  Every
//! access from verified code goes through the wrappers below, whose contracts
//! state what nalgebra's own source shows.

use vstd::prelude::*;

use crate::color::Color;

verus! {

/// A fixed-size grid of pixel colors, stored row-major in an
/// `nalgebra::DMatrix`.  Opaque to the verifier: its contents are reached
/// only through the trusted wrappers of this module.
#[verifier::external_body]
#[derive(Debug)]
pub struct PixelGrid {
    inner: nalgebra::DMatrix<Color>,
}

/// The pixel rows a grid holds, top to bottom, each row left to right.
pub uninterp spec fn grid_of(m: PixelGrid) -> Seq<Seq<Color>>;

/// The column count a grid was built with; every row of `grid_of` has this
/// length.
pub uninterp spec fn grid_cols_of(m: PixelGrid) -> int;

/// Relies on nalgebra's `DMatrix::from_element`: a `rows` x `cols` matrix
/// with every component equal to `elem`.
#[verifier::external_body]
pub(crate) fn grid_new(rows: u16, cols: u16, elem: Color) -> (m: PixelGrid)
    ensures
        grid_of(m) == Seq::new(rows as nat, |i: int| Seq::new(cols as nat, |j: int| elem)),
        grid_cols_of(m) == cols as int,
{
    PixelGrid { inner: nalgebra::DMatrix::from_element(rows as usize, cols as usize, elem) }
}

/// Relies on nalgebra's `Matrix::nrows`: the number of rows.
#[verifier::external_body]
pub(crate) fn grid_rows(m: &PixelGrid) -> (r: usize)
    ensures
        r == grid_of(*m).len(),
{
    m.inner.nrows()
}

/// Relies on nalgebra's `Matrix::ncols`: the number of columns.
#[verifier::external_body]
pub(crate) fn grid_cols(m: &PixelGrid) -> (r: usize)
    ensures
        r == grid_cols_of(*m),
{
    m.inner.ncols()
}

/// Relies on nalgebra's `Index<(usize, usize)>` for `Matrix`: the component
/// at (row, col).  It panics out of bounds; the `requires` excludes that.
#[verifier::external_body]
pub(crate) fn grid_get(m: &PixelGrid, row: usize, col: usize) -> (c: Color)
    requires
        row < grid_of(*m).len(),
        col < grid_cols_of(*m),
    ensures
        c == grid_of(*m)[row as int][col as int],
{
    m.inner[(row, col)]
}

/// Relies on nalgebra's `IndexMut<(usize, usize)>` for `Matrix`: writes the
/// component at (row, col) and nothing else.  It panics out of bounds; the
/// `requires` excludes that.
#[verifier::external_body]
pub(crate) fn grid_set(m: &mut PixelGrid, row: usize, col: usize, c: Color)
    requires
        row < grid_of(*old(m)).len(),
        col < grid_cols_of(*old(m)),
    ensures
        grid_of(*final(m)) == grid_of(*old(m)).update(
            row as int,
            grid_of(*old(m))[row as int].update(col as int, c),
        ),
        grid_cols_of(*final(m)) == grid_cols_of(*old(m)),
{
    m.inner[(row, col)] = c;
}

} // verus!
