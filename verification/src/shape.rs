use vstd::prelude::*;
use crate::error::FilterError;

verus! {

/// The dimensions of a dense matrix: `rows` × `cols`.
#[derive(Clone, Copy, Debug, PartialEq, Eq, Structural)]
pub struct Shape {
    pub rows: usize,
    pub cols: usize,
}

/// The shape of an `n` × `n` matrix.
pub open spec fn square(n: usize) -> Shape {
    Shape { rows: n, cols: n }
}

/// The shape of `a · b`, defined when the columns of `a` match the rows of `b`.
pub open spec fn product(a: Shape, b: Shape) -> Result<Shape, FilterError> {
    if a.cols == b.rows {
        Ok(Shape { rows: a.rows, cols: b.cols })
    } else {
        Err(FilterError::ShapeMismatch)
    }
}

/// The length of `a · v` for a vector `v` of length `len`.
pub open spec fn product_vec(a: Shape, len: usize) -> Result<usize, FilterError> {
    if a.cols == len {
        Ok(a.rows)
    } else {
        Err(FilterError::ShapeMismatch)
    }
}

/// The shape of `a + b` (or `a - b`), defined on equal shapes.
pub open spec fn sum(a: Shape, b: Shape) -> Result<Shape, FilterError> {
    if a == b {
        Ok(a)
    } else {
        Err(FilterError::ShapeMismatch)
    }
}

/// The length of `u + v` (or `u - v`), defined on equal lengths.
pub open spec fn sum_vec(a: usize, b: usize) -> Result<usize, FilterError> {
    if a == b {
        Ok(a)
    } else {
        Err(FilterError::ShapeMismatch)
    }
}

/// The shape of a matrix after a vector of length `len` is added to (or
/// subtracted from) each of its columns.
pub open spec fn each_col(a: Shape, len: usize) -> Result<Shape, FilterError> {
    if a.rows == len {
        Ok(a)
    } else {
        Err(FilterError::ShapeMismatch)
    }
}

/// Position of entry `(i, j)` of a matrix with `cols` columns stored row by
/// row.
pub open spec fn flat_index(cols: int, i: int, j: int) -> int {
    i * cols + j
}

/// The shape of the transpose.
pub open spec fn transposed(a: Shape) -> Shape {
    Shape { rows: a.cols, cols: a.rows }
}

/// The shape of the inverse, defined on square matrices.
pub open spec fn inverted(a: Shape) -> Result<Shape, FilterError> {
    if a.rows == a.cols {
        Ok(a)
    } else {
        Err(FilterError::ShapeMismatch)
    }
}

impl Shape {
    /// A `rows` × `cols` shape.
    pub fn new(rows: usize, cols: usize) -> (s: Shape)
        ensures
            s == (Shape { rows, cols }),
    {
        Shape { rows, cols }
    }

    /// An `n` × `n` shape.
    pub fn square(n: usize) -> (s: Shape)
        ensures
            s == square(n),
    {
        Shape { rows: n, cols: n }
    }

    /// The shape of the transpose.
    pub fn transpose(&self) -> (t: Shape)
        ensures
            t == transposed(*self),
    {
        Shape { rows: self.cols, cols: self.rows }
    }

    /// The shape of `self · other`.
    pub fn mul(&self, other: &Shape) -> (r: Result<Shape, FilterError>)
        ensures
            r == product(*self, *other),
    {
        if self.cols == other.rows {
            Ok(Shape { rows: self.rows, cols: other.cols })
        } else {
            Err(FilterError::ShapeMismatch)
        }
    }

    /// The length of `self · v` for a vector `v` of length `len`.
    pub fn mul_vec(&self, len: usize) -> (r: Result<usize, FilterError>)
        ensures
            r == product_vec(*self, len),
    {
        if self.cols == len {
            Ok(self.rows)
        } else {
            Err(FilterError::ShapeMismatch)
        }
    }

    /// The shape of `self + other` or `self - other`.
    pub fn add(&self, other: &Shape) -> (r: Result<Shape, FilterError>)
        ensures
            r == sum(*self, *other),
    {
        if self.rows == other.rows && self.cols == other.cols {
            Ok(*self)
        } else {
            Err(FilterError::ShapeMismatch)
        }
    }

    /// The shape after a vector of length `len` is added to each column.
    pub fn add_each_col(&self, len: usize) -> (r: Result<Shape, FilterError>)
        ensures
            r == each_col(*self, len),
    {
        if self.rows == len {
            Ok(*self)
        } else {
            Err(FilterError::ShapeMismatch)
        }
    }

    /// The shape of the inverse.
    pub fn inverse(&self) -> (r: Result<Shape, FilterError>)
        ensures
            r == inverted(*self),
    {
        if self.rows == self.cols {
            Ok(*self)
        } else {
            Err(FilterError::ShapeMismatch)
        }
    }
}

/// The length of `a + b` or `a - b` for vectors of lengths `a` and `b`.
pub fn add_vec(a: usize, b: usize) -> (r: Result<usize, FilterError>)
    ensures
        r == sum_vec(a, b),
{
    if a == b {
        Ok(a)
    } else {
        Err(FilterError::ShapeMismatch)
    }
}

} // verus!
