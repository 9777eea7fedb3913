//! A borrowed, read-only view of a rectangle inside a row-major buffer.

use crate::dimensions::ImageDimensions;
use crate::geometry::{frame_index, region_fits};
use core::ops::Index;
use vstd::prelude::*;

verus! {

/// A read-only view of a child rectangle inside a parent image.
///
/// The parent is a borrowed row-major buffer `parent_dims.columns()` wide.
/// The child has the shape `child_dims` and its top-left corner stands at a
/// fixed row and column of the parent. Indexing the view with a linear index
/// into the child reads the matching element of the parent's buffer.
///
/// Nothing checks that the child lies inside the parent. A child that reaches
/// past the parent's right edge is not cut off: its rows run on into the
/// parent's next row. Callers who do not want that keep to
/// [`SliceView::fits`].
pub struct SliceView<'a, T> {
    passthru: bool,
    pub parent_dims: ImageDimensions,
    pub child_dims: ImageDimensions,
    parent_start_col: usize,
    parent_start_row: usize,
    slice: &'a [T],
}

impl<'a, T> SliceView<'a, T> {
    /// The shape of the parent, as contracts see it.
    pub closed spec fn spec_parent_dims(&self) -> ImageDimensions {
        self.parent_dims
    }

    /// The shape of the child, as contracts see it.
    pub closed spec fn spec_child_dims(&self) -> ImageDimensions {
        self.child_dims
    }

    /// Whether the view hands each index to the buffer as it is.
    pub closed spec fn is_passthru(&self) -> bool {
        self.passthru
    }

    /// The parent's row in which the child's first row lies.
    pub closed spec fn start_row(&self) -> usize {
        self.parent_start_row
    }

    /// The parent's column in which the child's first column lies.
    pub closed spec fn start_col(&self) -> usize {
        self.parent_start_col
    }

    /// The contents of the borrowed buffer.
    pub closed spec fn buffer(&self) -> Seq<T> {
        self.slice@
    }

    /// The index into the buffer at which the child's element `idx` is read.
    pub open spec fn parent_index(&self, idx: int) -> int {
        if self.is_passthru() {
            idx
        } else {
            frame_index(
                self.spec_parent_dims().spec_columns() as int,
                self.start_row() as int,
                self.start_col() as int,
                self.spec_child_dims().spec_columns() as int,
                idx,
            )
        }
    }

    /// Whether the child's element `idx` can be read: the child has columns
    /// to divide by, the parent's row fits the machine's word, and the
    /// element lies inside the buffer.
    pub open spec fn readable(&self, idx: int) -> bool {
        &&& idx >= 0
        &&& self.parent_index(idx) < self.buffer().len()
        &&& !self.is_passthru() ==> {
            &&& self.spec_child_dims().spec_columns() > 0
            &&& self.start_row() + idx / (self.spec_child_dims().spec_columns() as int) <= usize::MAX
        }
    }

    /// Whether the child lies inside the parent and the parent inside the
    /// buffer, so that every element of the child can be read and none of
    /// its rows runs on into the parent's next row.
    pub open spec fn fits(&self) -> bool {
        &&& region_fits(
            self.spec_parent_dims(),
            self.start_row() as int,
            self.start_col() as int,
            self.spec_child_dims(),
            self.buffer().len() as int,
        )
        &&& self.is_passthru() ==> {
            &&& self.spec_child_dims() == self.spec_parent_dims()
            &&& self.start_row() == 0
            &&& self.start_col() == 0
        }
    }

    /// A view of the rectangle of shape `child_dims` whose top-left corner
    /// stands at (`parent_start_row`, `parent_start_col`) of the parent.
    pub fn new(
        parent_dims: ImageDimensions,
        parent_start_row: usize,
        parent_start_col: usize,
        slice: &'a [T],
        child_dims: ImageDimensions,
    ) -> (view: Self)
        ensures
            !view.is_passthru(),
            view.spec_parent_dims() == parent_dims,
            view.spec_child_dims() == child_dims,
            view.start_row() == parent_start_row,
            view.start_col() == parent_start_col,
            view.buffer() == slice@,
    {
        Self {
            passthru: false,
            parent_dims,
            child_dims,
            parent_start_col,
            parent_start_row,
            slice,
        }
    }

    /// A view of the whole buffer as an image of shape `parent_dims`: each
    /// index is handed to the buffer as it is, with no arithmetic.
    pub fn new_passthru(parent_dims: ImageDimensions, slice: &'a [T]) -> (view: Self)
        ensures
            view.is_passthru(),
            view.spec_parent_dims() == parent_dims,
            view.spec_child_dims() == parent_dims,
            view.start_row() == 0,
            view.start_col() == 0,
            view.buffer() == slice@,
    {
        Self {
            passthru: true,
            parent_dims,
            child_dims: parent_dims,
            parent_start_col: 0,
            parent_start_row: 0,
            slice,
        }
    }

    /// Two views of shape `child_dims` side by side in the same rows of the
    /// parent: the first with its corner at
    /// (`parent_start_row`, `parent_start_col`), the second directly to its
    /// right. Both read the same buffer.
    ///
    /// Nothing checks that the second view stays inside the parent's width.
    pub fn new_split(
        parent_dims: ImageDimensions,
        parent_start_row: usize,
        parent_start_col: usize,
        slice: &'a [T],
        child_dims: ImageDimensions,
    ) -> (views: (Self, Self))
        requires
            parent_start_col + child_dims.spec_columns() <= usize::MAX,
        ensures
            !views.0.is_passthru(),
            views.0.spec_parent_dims() == parent_dims,
            views.0.spec_child_dims() == child_dims,
            views.0.start_row() == parent_start_row,
            views.0.start_col() == parent_start_col,
            views.0.buffer() == slice@,
            !views.1.is_passthru(),
            views.1.spec_parent_dims() == parent_dims,
            views.1.spec_child_dims() == child_dims,
            views.1.start_row() == parent_start_row,
            views.1.start_col() == parent_start_col + child_dims.spec_columns(),
            views.1.buffer() == slice@,
    {
        let second_child_start_col: usize = parent_start_col + child_dims.columns();
        (
            Self {
                passthru: false,
                parent_dims,
                child_dims,
                parent_start_col,
                parent_start_row,
                slice,
            },
            Self {
                passthru: false,
                parent_dims,
                child_dims,
                parent_start_col: second_child_start_col,
                parent_start_row,
                slice,
            },
        )
    }

    /// The view that [`SliceView::new`] builds, if the child has columns and
    /// lies inside the parent and the parent inside the buffer; `None` if
    /// not.
    pub fn new_checked(
        parent_dims: ImageDimensions,
        parent_start_row: usize,
        parent_start_col: usize,
        slice: &'a [T],
        child_dims: ImageDimensions,
    ) -> (checked: Option<Self>)
        ensures
            checked is Some <==> region_fits(
                parent_dims,
                parent_start_row as int,
                parent_start_col as int,
                child_dims,
                slice@.len() as int,
            ),
            checked matches Some(view) ==> {
                &&& !view.is_passthru()
                &&& view.spec_parent_dims() == parent_dims
                &&& view.spec_child_dims() == child_dims
                &&& view.start_row() == parent_start_row
                &&& view.start_col() == parent_start_col
                &&& view.buffer() == slice@
                &&& view.fits()
            },
    {
        if child_dims.columns() == 0 {
            return None;
        }
        match parent_start_col.checked_add(child_dims.columns()) {
            Some(end_col) if end_col <= parent_dims.columns() => {},
            _ => {
                return None;
            },
        }
        match parent_start_row.checked_add(child_dims.rows()) {
            Some(end_row) if end_row <= parent_dims.rows() => {},
            _ => {
                return None;
            },
        }
        assert(slice.len() == slice@.len());
        match parent_dims.columns().checked_mul(parent_dims.rows()) {
            Some(area) if area <= slice.len() => {},
            _ => {
                return None;
            },
        }
        Some(Self::new(parent_dims, parent_start_row, parent_start_col, slice, child_dims))
    }

    /// The shape of the parent.
    #[verifier::when_used_as_spec(spec_parent_dims)]
    pub fn parent_dims(&self) -> (dims: ImageDimensions)
        ensures
            dims == self.spec_parent_dims(),
    {
        self.parent_dims
    }

    /// The shape of the child.
    #[verifier::when_used_as_spec(spec_child_dims)]
    pub fn child_dims(&self) -> (dims: ImageDimensions)
        ensures
            dims == self.spec_child_dims(),
    {
        self.child_dims
    }
}

impl<'a, T> View for SliceView<'a, T> {
    type V = Seq<T>;

    /// The child image: its elements in row-major order, each read from the
    /// parent's buffer.
    open spec fn view(&self) -> Seq<T> {
        Seq::new(
            self.spec_child_dims().area(),
            |idx: int| self.buffer()[self.parent_index(idx)],
        )
    }
}

impl<'a, T> vstd::std_specs::core::IndexSpecImpl<usize> for SliceView<'a, T> {
    open spec fn index_req(&self, idx: &usize) -> bool {
        self.readable(*idx as int)
    }
}

impl<'a, T> Index<usize> for SliceView<'a, T> {
    type Output = T;

    /// The child's element `idx`, read from the parent's buffer at
    /// [`SliceView::parent_index`]. It is there to be read when
    /// [`SliceView::readable`] holds of `idx`, which it does for every
    /// element of a view that fits.
    fn index(&self, idx: usize) -> (element: &T)
        ensures
            *element == self.buffer()[self.parent_index(idx as int)],
            idx < self@.len() ==> *element == self@[idx as int],
    {
        let frame_idx: usize = if !self.passthru {
            let child_y: usize = idx / self.child_dims.columns();
            let child_x: usize = idx % self.child_dims.columns();
            proof {
                let columns = self.parent_dims.spec_columns() as int;
                let row = self.parent_start_row + child_y;
                let column = self.parent_start_col + child_x;
                assert(self.slice.len() == self.buffer().len());
                assert(self.parent_index(idx as int) == row * columns + column);
                assert(0 <= row * columns) by (nonlinear_arith)
                    requires
                        0 <= row,
                        0 <= columns,
                ;
            }
            let frame_x: usize = self.parent_start_col + child_x;
            let frame_y: usize = self.parent_start_row + child_y;
            frame_y * self.parent_dims.columns() + frame_x
        } else {
            idx
        };
        &self.slice[frame_idx]
    }
}

} // verus!
