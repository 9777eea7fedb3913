//! The extent of a rectangle, in columns and rows.

use vstd::prelude::*;

verus! {

/// The extent of a rectangle: a number of columns by a number of rows.
///
/// This is a plain value with no validation. A zero extent can be built, but
/// a child rectangle without columns cannot be indexed.
#[derive(Copy, Clone, Debug)]
pub struct ImageDimensions {
    columns: usize,
    rows: usize,
}

impl ImageDimensions {
    /// The number of columns, as contracts see it.
    pub closed spec fn spec_columns(&self) -> usize {
        self.columns
    }

    /// The number of rows, as contracts see it.
    pub closed spec fn spec_rows(&self) -> usize {
        self.rows
    }

    /// The number of elements of a rectangle of this extent.
    pub open spec fn area(&self) -> nat {
        (self.spec_columns() * self.spec_rows()) as nat
    }

    /// A rectangle `width` columns wide and `height` rows high.
    pub fn new(width: usize, height: usize) -> (dims: Self)
        ensures
            dims.spec_columns() == width,
            dims.spec_rows() == height,
    {
        Self { columns: width, rows: height }
    }

    /// The number of columns.
    #[verifier::when_used_as_spec(spec_columns)]
    pub fn columns(&self) -> (columns: usize)
        ensures
            columns == self.spec_columns(),
    {
        self.columns
    }

    /// The number of rows.
    #[verifier::when_used_as_spec(spec_rows)]
    pub fn rows(&self) -> (rows: usize)
        ensures
            rows == self.spec_rows(),
    {
        self.rows
    }
}

impl Default for ImageDimensions {
    /// The empty rectangle: no columns and no rows.
    fn default() -> (dims: Self)
        ensures
            dims.spec_columns() == 0,
            dims.spec_rows() == 0,
    {
        Self { columns: 0, rows: 0 }
    }
}

/// Two extents with the same columns and rows are the same value.
pub proof fn lemma_dimensions_extensional(a: ImageDimensions, b: ImageDimensions)
    requires
        a.spec_columns() == b.spec_columns(),
        a.spec_rows() == b.spec_rows(),
    ensures
        a == b,
{
}

} // verus!
