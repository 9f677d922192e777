//! Cell storage for images, kept in an `ndarray` array of two axes.
//!
//! Verus cannot look inside an `ndarray` array, so what a grid holds is given
//! by two functions for each kind of pixel, its shape and its cells, and every
//! call into `ndarray` goes through a function whose contract is stated over
//! those two and taken on trust.

use vstd::prelude::*;
use crate::element::pixel::RGBA;
use crate::error::Error;
use crate::layer::primitive::{gray_level, holds, level_of, passes, Comparison};

verus! {

/// A rectangular buffer of cells, held in an `ndarray::Array2`. Axis 0 counts
/// the rows, axis 1 the columns. Verus sees nothing inside it.
#[verifier::external_body]
#[verifier::reject_recursive_types(T)]
pub struct Grid<T> {
    cells: ndarray::Array2<T>,
}

/// `ndarray::ShapeError`, of which Verus sees no more than that it is a type.
#[verifier::external_type_specification]
#[verifier::external_body]
pub struct ExShapeError(ndarray::ShapeError);

/// Whether `ndarray` can address a grid of `rows` by `cols` cells: the product
/// of the axis lengths that are not zero must not exceed `isize::MAX`.
pub open spec fn addressable(rows: usize, cols: usize) -> bool {
    (if rows == 0 { 1 } else { rows as int }) * (if cols == 0 { 1 } else { cols as int })
        <= isize::MAX as int
}

/// The lengths of the two axes of a binary grid: rows, then columns.
pub uninterp spec fn binary_shape(grid: Grid<bool>) -> Seq<usize>;

/// The cells of a binary grid in logical order: row by row, each row from its
/// first column to its last.
pub uninterp spec fn binary_cells(grid: Grid<bool>) -> Seq<bool>;

/// `ArrayBase::len_of` on a binary grid. The contract claims that the call
/// returns the length of the axis asked for. An axis beyond the second would
/// panic.
#[verifier::external_body]
fn binary_len_of(grid: &Grid<bool>, axis: usize) -> (len: usize)
    requires
        axis < 2,
    ensures
        len == binary_shape(*grid)[axis as int],
{
    grid.cells.len_of(ndarray::Axis(axis))
}

/// `ArrayBase::from_shape_vec` with the shape `(rows, cols)`, for a binary
/// grid. The contract claims that the call succeeds exactly when the vector
/// holds `rows * cols` cells and the shape is addressable, and that the array
/// then has that shape and holds the vector's cells in row-major order.
#[verifier::external_body]
fn binary_from_shape_vec(rows: usize, cols: usize, cells: Vec<bool>) -> (made: Result<Grid<bool>, ndarray::ShapeError>)
    ensures
        made is Ok <==> (cells@.len() == rows * cols && addressable(rows, cols)),
        made matches Ok(grid) ==> binary_shape(grid) == seq![rows, cols],
        made matches Ok(grid) ==> binary_cells(grid) == cells@,
{
    match ndarray::Array2::from_shape_vec((rows, cols), cells) {
        Ok(cells) => Ok(Grid { cells }),
        Err(e) => Err(e),
    }
}

/// `ArrayBase::iter` on a binary grid, collected. The contract claims that
/// the iterator visits every cell once, in logical order, so that their number
/// is the product of the axis lengths.
#[verifier::external_body]
fn binary_to_vec(grid: &Grid<bool>) -> (cells: Vec<bool>)
    ensures
        cells@ == binary_cells(*grid),
        cells@.len() == binary_shape(*grid)[0] * binary_shape(*grid)[1],
{
    grid.cells.iter().copied().collect()
}

/// The lengths of the two axes of a gray grid: rows, then columns.
pub uninterp spec fn gray_shape(grid: Grid<u8>) -> Seq<usize>;

/// The cells of a gray grid in logical order: row by row, each row from its
/// first column to its last.
pub uninterp spec fn gray_cells(grid: Grid<u8>) -> Seq<u8>;

/// `ArrayBase::len_of` on a gray grid. The contract claims that the call
/// returns the length of the axis asked for. An axis beyond the second would
/// panic.
#[verifier::external_body]
fn gray_len_of(grid: &Grid<u8>, axis: usize) -> (len: usize)
    requires
        axis < 2,
    ensures
        len == gray_shape(*grid)[axis as int],
{
    grid.cells.len_of(ndarray::Axis(axis))
}

/// `ArrayBase::from_shape_vec` with the shape `(rows, cols)`, for a gray
/// grid. The contract claims that the call succeeds exactly when the vector
/// holds `rows * cols` cells and the shape is addressable, and that the array
/// then has that shape and holds the vector's cells in row-major order.
#[verifier::external_body]
fn gray_from_shape_vec(rows: usize, cols: usize, cells: Vec<u8>) -> (made: Result<Grid<u8>, ndarray::ShapeError>)
    ensures
        made is Ok <==> (cells@.len() == rows * cols && addressable(rows, cols)),
        made matches Ok(grid) ==> gray_shape(grid) == seq![rows, cols],
        made matches Ok(grid) ==> gray_cells(grid) == cells@,
{
    match ndarray::Array2::from_shape_vec((rows, cols), cells) {
        Ok(cells) => Ok(Grid { cells }),
        Err(e) => Err(e),
    }
}

/// `ArrayBase::iter` on a gray grid, collected. The contract claims that
/// the iterator visits every cell once, in logical order, so that their number
/// is the product of the axis lengths.
#[verifier::external_body]
fn gray_to_vec(grid: &Grid<u8>) -> (cells: Vec<u8>)
    ensures
        cells@ == gray_cells(*grid),
        cells@.len() == gray_shape(*grid)[0] * gray_shape(*grid)[1],
{
    grid.cells.iter().copied().collect()
}

/// The lengths of the two axes of a gray-alpha grid: rows, then columns.
pub uninterp spec fn gray_alpha_shape(grid: Grid<(u8, u8)>) -> Seq<usize>;

/// The cells of a gray-alpha grid in logical order: row by row, each row from its
/// first column to its last.
pub uninterp spec fn gray_alpha_cells(grid: Grid<(u8, u8)>) -> Seq<(u8, u8)>;

/// `ArrayBase::len_of` on a gray-alpha grid. The contract claims that the call
/// returns the length of the axis asked for. An axis beyond the second would
/// panic.
#[verifier::external_body]
fn gray_alpha_len_of(grid: &Grid<(u8, u8)>, axis: usize) -> (len: usize)
    requires
        axis < 2,
    ensures
        len == gray_alpha_shape(*grid)[axis as int],
{
    grid.cells.len_of(ndarray::Axis(axis))
}

/// `ArrayBase::from_shape_vec` with the shape `(rows, cols)`, for a gray-alpha
/// grid. The contract claims that the call succeeds exactly when the vector
/// holds `rows * cols` cells and the shape is addressable, and that the array
/// then has that shape and holds the vector's cells in row-major order.
#[verifier::external_body]
fn gray_alpha_from_shape_vec(rows: usize, cols: usize, cells: Vec<(u8, u8)>) -> (made: Result<Grid<(u8, u8)>, ndarray::ShapeError>)
    ensures
        made is Ok <==> (cells@.len() == rows * cols && addressable(rows, cols)),
        made matches Ok(grid) ==> gray_alpha_shape(grid) == seq![rows, cols],
        made matches Ok(grid) ==> gray_alpha_cells(grid) == cells@,
{
    match ndarray::Array2::from_shape_vec((rows, cols), cells) {
        Ok(cells) => Ok(Grid { cells }),
        Err(e) => Err(e),
    }
}

/// `ArrayBase::iter` on a gray-alpha grid, collected. The contract claims that
/// the iterator visits every cell once, in logical order, so that their number
/// is the product of the axis lengths.
#[verifier::external_body]
fn gray_alpha_to_vec(grid: &Grid<(u8, u8)>) -> (cells: Vec<(u8, u8)>)
    ensures
        cells@ == gray_alpha_cells(*grid),
        cells@.len() == gray_alpha_shape(*grid)[0] * gray_alpha_shape(*grid)[1],
{
    grid.cells.iter().copied().collect()
}

/// The lengths of the two axes of a RGBA grid: rows, then columns.
pub uninterp spec fn rgba_shape(grid: Grid<RGBA<u8>>) -> Seq<usize>;

/// The cells of a RGBA grid in logical order: row by row, each row from its
/// first column to its last.
pub uninterp spec fn rgba_cells(grid: Grid<RGBA<u8>>) -> Seq<RGBA<u8>>;

/// `ArrayBase::len_of` on a RGBA grid. The contract claims that the call
/// returns the length of the axis asked for. An axis beyond the second would
/// panic.
#[verifier::external_body]
fn rgba_len_of(grid: &Grid<RGBA<u8>>, axis: usize) -> (len: usize)
    requires
        axis < 2,
    ensures
        len == rgba_shape(*grid)[axis as int],
{
    grid.cells.len_of(ndarray::Axis(axis))
}

/// `ArrayBase::from_shape_vec` with the shape `(rows, cols)`, for a RGBA
/// grid. The contract claims that the call succeeds exactly when the vector
/// holds `rows * cols` cells and the shape is addressable, and that the array
/// then has that shape and holds the vector's cells in row-major order.
#[verifier::external_body]
fn rgba_from_shape_vec(rows: usize, cols: usize, cells: Vec<RGBA<u8>>) -> (made: Result<Grid<RGBA<u8>>, ndarray::ShapeError>)
    ensures
        made is Ok <==> (cells@.len() == rows * cols && addressable(rows, cols)),
        made matches Ok(grid) ==> rgba_shape(grid) == seq![rows, cols],
        made matches Ok(grid) ==> rgba_cells(grid) == cells@,
{
    match ndarray::Array2::from_shape_vec((rows, cols), cells) {
        Ok(cells) => Ok(Grid { cells }),
        Err(e) => Err(e),
    }
}

/// `ArrayBase::iter` on a RGBA grid, collected. The contract claims that
/// the iterator visits every cell once, in logical order, so that their number
/// is the product of the axis lengths.
#[verifier::external_body]
fn rgba_to_vec(grid: &Grid<RGBA<u8>>) -> (cells: Vec<RGBA<u8>>)
    ensures
        cells@ == rgba_cells(*grid),
        cells@.len() == rgba_shape(*grid)[0] * rgba_shape(*grid)[1],
{
    grid.cells.iter().copied().collect()
}

/// `ArrayBase::map` on a binary grid, with a closure that gives each cell its
/// gray level. The contract claims that the new array has the shape of the old
/// one and holds, in each place, what the closure made of the cell there.
#[verifier::external_body]
pub(crate) fn binary_map_gray(grid: &Grid<bool>) -> (mapped: Grid<u8>)
    ensures
        gray_shape(mapped) == binary_shape(*grid),
        gray_cells(mapped) == binary_cells(*grid).map_values(|on: bool| gray_level(on)),
{
    Grid { cells: grid.cells.map(|on| level_of(*on)) }
}

/// `ArrayBase::map` on a gray grid, with a closure that tells of each cell
/// whether it stands to `threshold` as `ordering` says. The contract claims
/// that the new array has the shape of the old one and holds, in each place,
/// what the closure made of the cell there.
#[verifier::external_body]
pub(crate) fn gray_map_binary(grid: &Grid<u8>, threshold: u8, ordering: Comparison) -> (mapped: Grid<bool>)
    ensures
        binary_shape(mapped) == gray_shape(*grid),
        binary_cells(mapped) == gray_cells(*grid).map_values(
            |pixel: u8| holds(pixel, threshold, ordering),
        ),
{
    Grid { cells: grid.cells.map(|pixel| passes(*pixel, threshold, ordering)) }
}

/// A kind of pixel that a grid can hold.
///
/// The two spec functions say what a grid of such pixels holds; the methods
/// are the operations on its storage.
pub trait Pixel: Sized {
    /// The lengths of the two axes of `grid`: rows, then columns.
    spec fn shape_of(grid: Grid<Self>) -> Seq<usize>;

    /// The cells of `grid`, row by row.
    spec fn cells_of(grid: Grid<Self>) -> Seq<Self>;

    /// The length of one axis of `grid`.
    fn grid_len_of(grid: &Grid<Self>, axis: usize) -> (len: usize)
        requires
            axis < 2,
        ensures
            len == Self::shape_of(*grid)[axis as int],
    ;

    /// A grid of `rows` by `cols` cells out of a vector that holds them row by
    /// row, or the `ndarray` error where the vector has another length or the
    /// shape is not addressable.
    fn grid_from_shape_vec(rows: usize, cols: usize, cells: Vec<Self>) -> (made: Result<Grid<Self>, ndarray::ShapeError>)
        ensures
            made is Ok <==> (cells@.len() == rows * cols && addressable(rows, cols)),
            made matches Ok(grid) ==> Self::shape_of(grid) == seq![rows, cols] && Self::cells_of(
                grid,
            ) == cells@,
    ;

    /// The cells of `grid`, row by row.
    fn grid_to_vec(grid: &Grid<Self>) -> (cells: Vec<Self>)
        ensures
            cells@ == Self::cells_of(*grid),
            cells@.len() == Self::shape_of(*grid)[0] * Self::shape_of(*grid)[1],
    ;
}

impl Pixel for bool {
    open spec fn shape_of(grid: Grid<bool>) -> Seq<usize> {
        binary_shape(grid)
    }

    open spec fn cells_of(grid: Grid<bool>) -> Seq<bool> {
        binary_cells(grid)
    }

    fn grid_len_of(grid: &Grid<bool>, axis: usize) -> (len: usize) {
        binary_len_of(grid, axis)
    }

    fn grid_from_shape_vec(rows: usize, cols: usize, cells: Vec<bool>) -> (made: Result<Grid<bool>, ndarray::ShapeError>) {
        binary_from_shape_vec(rows, cols, cells)
    }

    fn grid_to_vec(grid: &Grid<bool>) -> (cells: Vec<bool>) {
        binary_to_vec(grid)
    }
}

impl Pixel for u8 {
    open spec fn shape_of(grid: Grid<u8>) -> Seq<usize> {
        gray_shape(grid)
    }

    open spec fn cells_of(grid: Grid<u8>) -> Seq<u8> {
        gray_cells(grid)
    }

    fn grid_len_of(grid: &Grid<u8>, axis: usize) -> (len: usize) {
        gray_len_of(grid, axis)
    }

    fn grid_from_shape_vec(rows: usize, cols: usize, cells: Vec<u8>) -> (made: Result<Grid<u8>, ndarray::ShapeError>) {
        gray_from_shape_vec(rows, cols, cells)
    }

    fn grid_to_vec(grid: &Grid<u8>) -> (cells: Vec<u8>) {
        gray_to_vec(grid)
    }
}

impl Pixel for (u8, u8) {
    open spec fn shape_of(grid: Grid<(u8, u8)>) -> Seq<usize> {
        gray_alpha_shape(grid)
    }

    open spec fn cells_of(grid: Grid<(u8, u8)>) -> Seq<(u8, u8)> {
        gray_alpha_cells(grid)
    }

    fn grid_len_of(grid: &Grid<(u8, u8)>, axis: usize) -> (len: usize) {
        gray_alpha_len_of(grid, axis)
    }

    fn grid_from_shape_vec(rows: usize, cols: usize, cells: Vec<(u8, u8)>) -> (made: Result<Grid<(u8, u8)>, ndarray::ShapeError>) {
        gray_alpha_from_shape_vec(rows, cols, cells)
    }

    fn grid_to_vec(grid: &Grid<(u8, u8)>) -> (cells: Vec<(u8, u8)>) {
        gray_alpha_to_vec(grid)
    }
}

impl Pixel for RGBA<u8> {
    open spec fn shape_of(grid: Grid<RGBA<u8>>) -> Seq<usize> {
        rgba_shape(grid)
    }

    open spec fn cells_of(grid: Grid<RGBA<u8>>) -> Seq<RGBA<u8>> {
        rgba_cells(grid)
    }

    fn grid_len_of(grid: &Grid<RGBA<u8>>, axis: usize) -> (len: usize) {
        rgba_len_of(grid, axis)
    }

    fn grid_from_shape_vec(rows: usize, cols: usize, cells: Vec<RGBA<u8>>) -> (made: Result<Grid<RGBA<u8>>, ndarray::ShapeError>) {
        rgba_from_shape_vec(rows, cols, cells)
    }

    fn grid_to_vec(grid: &Grid<RGBA<u8>>) -> (cells: Vec<RGBA<u8>>) {
        rgba_to_vec(grid)
    }
}

impl<T: Pixel> Grid<T> {
    /// The number of rows.
    pub open spec fn rows(&self) -> nat {
        T::shape_of(*self)[0] as nat
    }

    /// The number of columns.
    pub open spec fn cols(&self) -> nat {
        T::shape_of(*self)[1] as nat
    }

    /// The cells, row by row.
    pub open spec fn cells(&self) -> Seq<T> {
        T::cells_of(*self)
    }

    /// Builds a grid of `rows` by `cols` cells from a vector that holds them
    /// row by row. Fails with `ShapeMismatch` when the vector has another
    /// length than `rows * cols`, or when the shape is not addressable.
    pub fn from_shape_vec(rows: usize, cols: usize, cells: Vec<T>) -> (made: Result<Self, Error>)
        ensures
            made is Ok <==> (cells@.len() == rows * cols && addressable(rows, cols)),
            made matches Ok(grid) ==> grid.rows() == rows && grid.cols() == cols && grid.cells()
                == cells@,
            made matches Err(e) ==> e == (Error::ShapeMismatch {
                actual: (1, cells@.len() as usize),
                declared: (rows, cols),
            }),
    {
        let given = cells.len();
        match T::grid_from_shape_vec(rows, cols, cells) {
            Ok(grid) => Ok(grid),
            Err(_) => Err(Error::ShapeMismatch { actual: (1, given), declared: (rows, cols) }),
        }
    }

    /// The length of an axis: of the rows for axis 0, of the columns for
    /// axis 1.
    pub fn len_of(&self, axis: usize) -> (len: usize)
        requires
            axis < 2,
        ensures
            axis == 0 ==> len == self.rows(),
            axis == 1 ==> len == self.cols(),
    {
        T::grid_len_of(self, axis)
    }

    /// A copy of the cells, row by row.
    pub fn to_vec(&self) -> (cells: Vec<T>)
        ensures
            cells@ == self.cells(),
            cells@.len() == self.rows() * self.cols(),
    {
        T::grid_to_vec(self)
    }
}

} // verus!
