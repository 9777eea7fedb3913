//! What holds of every view: where its elements lie in the parent, and how
//! the three ways of building a view relate.

use crate::geometry::{
    child_column, child_row, lemma_child_coordinates, lemma_child_row_bound,
    lemma_frame_index_full_width, lemma_frame_index_origin, lemma_row_major_bound,
    lemma_row_major_injective, row_major,
};
use crate::view::SliceView;
use vstd::prelude::*;

verus! {

/// The first element of a view whose corner is the parent's first element
/// is the buffer's first element, whatever the two shapes are. It can be
/// read as soon as the buffer holds anything.
pub proof fn lemma_first_element_at_origin<T>(view: SliceView<T>)
    requires
        view.start_row() == 0,
        view.start_col() == 0,
        view.is_passthru() || view.spec_child_dims().spec_columns() > 0,
    ensures
        view.parent_index(0) == 0,
        view.readable(0) <==> view.buffer().len() > 0,
{
    if !view.is_passthru() {
        lemma_frame_index_origin(
            view.spec_parent_dims().spec_columns() as int,
            view.spec_child_dims().spec_columns() as int,
        );
    }
}

/// A passthrough view reads the buffer's element `idx` at `idx`, for every
/// index inside the buffer and for no other.
pub proof fn lemma_passthru_reads_buffer<T>(view: SliceView<T>, idx: int)
    requires
        view.is_passthru(),
    ensures
        view.parent_index(idx) == idx,
        view.readable(idx) <==> 0 <= idx < view.buffer().len(),
{
}

/// A passthrough view does what the coordinate arithmetic would do for a
/// child that covers the whole parent: it reads the same elements as the
/// view with the parent's own shape and its corner at the parent's first
/// element.
pub proof fn lemma_passthru_matches_offset_view<T>(
    direct: SliceView<T>,
    mapped: SliceView<T>,
    idx: int,
)
    requires
        direct.is_passthru(),
        !mapped.is_passthru(),
        mapped.spec_child_dims() == mapped.spec_parent_dims(),
        mapped.spec_parent_dims().spec_columns() > 0,
        mapped.start_row() == 0,
        mapped.start_col() == 0,
        mapped.buffer() == direct.buffer(),
        0 <= idx <= usize::MAX,
    ensures
        mapped.parent_index(idx) == direct.parent_index(idx),
        mapped.readable(idx) <==> direct.readable(idx),
{
    let columns = mapped.spec_parent_dims().spec_columns() as int;
    lemma_frame_index_full_width(columns, idx);
    lemma_child_coordinates(columns, idx);
}

/// In a view that fits, every element of the child can be read, and it is
/// read from inside the parent: the element in row `r` and column `c` of the
/// child is the parent's element in row `start_row + r` and column
/// `start_col + c`.
pub proof fn lemma_fitting_view_reads_inside<T>(view: SliceView<T>, idx: int)
    requires
        view.fits(),
        0 <= idx < view.spec_child_dims().area(),
    ensures
        view.readable(idx),
        0 <= view.parent_index(idx) < view.spec_parent_dims().area(),
        view.parent_index(idx) == row_major(
            view.spec_parent_dims().spec_columns() as int,
            view.start_row() + child_row(view.spec_child_dims().spec_columns() as int, idx),
            view.start_col() + child_column(view.spec_child_dims().spec_columns() as int, idx),
        ),
        0 <= child_row(view.spec_child_dims().spec_columns() as int, idx)
            < view.spec_child_dims().spec_rows(),
        0 <= child_column(view.spec_child_dims().spec_columns() as int, idx)
            < view.spec_child_dims().spec_columns(),
{
    let parent = view.spec_parent_dims();
    let child = view.spec_child_dims();
    let columns = child.spec_columns() as int;
    lemma_child_coordinates(columns, idx);
    lemma_child_row_bound(columns, child.spec_rows() as int, idx);
    lemma_row_major_bound(
        parent.spec_columns() as int,
        parent.spec_rows() as int,
        view.start_row() + child_row(columns, idx),
        view.start_col() + child_column(columns, idx),
    );
    if view.is_passthru() {
        lemma_frame_index_full_width(columns, idx);
    }
}

/// In a view that fits, two different elements of the child are two
/// different elements of the buffer.
pub proof fn lemma_fitting_view_injective<T>(view: SliceView<T>, idx_a: int, idx_b: int)
    requires
        view.fits(),
        0 <= idx_a < view.spec_child_dims().area(),
        0 <= idx_b < view.spec_child_dims().area(),
        view.parent_index(idx_a) == view.parent_index(idx_b),
    ensures
        idx_a == idx_b,
{
    let columns = view.spec_child_dims().spec_columns() as int;
    lemma_fitting_view_reads_inside(view, idx_a);
    lemma_fitting_view_reads_inside(view, idx_b);
    lemma_row_major_injective(
        view.spec_parent_dims().spec_columns() as int,
        view.start_row() + child_row(columns, idx_a),
        view.start_col() + child_column(columns, idx_a),
        view.start_row() + child_row(columns, idx_b),
        view.start_col() + child_column(columns, idx_b),
    );
    lemma_child_coordinates(columns, idx_a);
    lemma_child_coordinates(columns, idx_b);
}

/// A passthrough view of a buffer that holds as many elements as the child
/// has is, as an image, the buffer itself.
pub proof fn lemma_passthru_image_is_buffer<T>(view: SliceView<T>)
    requires
        view.is_passthru(),
        view.spec_child_dims().area() == view.buffer().len(),
    ensures
        view@ == view.buffer(),
{
    assert(view@ =~= view.buffer());
}

/// Whether `right` is the view of the same shape that stands directly to
/// the right of `left` in the same parent and over the same buffer.
pub open spec fn side_by_side<T>(left: SliceView<T>, right: SliceView<T>) -> bool {
    &&& !left.is_passthru()
    &&& !right.is_passthru()
    &&& right.spec_parent_dims() == left.spec_parent_dims()
    &&& right.spec_child_dims() == left.spec_child_dims()
    &&& right.start_row() == left.start_row()
    &&& right.start_col() == left.start_col() + left.spec_child_dims().spec_columns()
    &&& right.buffer() == left.buffer()
}

/// Of two views side by side, the right one reads each of its elements one
/// child's width further on in the buffer than the left one.
pub proof fn lemma_split_adjacent<T>(left: SliceView<T>, right: SliceView<T>, idx: int)
    requires
        side_by_side(left, right),
    ensures
        right.parent_index(idx) == left.parent_index(idx) + left.spec_child_dims().spec_columns(),
{
}

/// Two views side by side share no element of the buffer, as long as the
/// right one fits.
pub proof fn lemma_split_disjoint<T>(
    left: SliceView<T>,
    right: SliceView<T>,
    idx_left: int,
    idx_right: int,
)
    requires
        side_by_side(left, right),
        right.fits(),
        0 <= idx_left < left.spec_child_dims().area(),
        0 <= idx_right < right.spec_child_dims().area(),
    ensures
        left.fits(),
        left.parent_index(idx_left) != right.parent_index(idx_right),
{
    let columns = left.spec_child_dims().spec_columns() as int;
    lemma_fitting_view_reads_inside(left, idx_left);
    lemma_fitting_view_reads_inside(right, idx_right);
    if left.parent_index(idx_left) == right.parent_index(idx_right) {
        lemma_row_major_injective(
            left.spec_parent_dims().spec_columns() as int,
            left.start_row() + child_row(columns, idx_left),
            left.start_col() + child_column(columns, idx_left),
            right.start_row() + child_row(columns, idx_right),
            right.start_col() + child_column(columns, idx_right),
        );
    }
}

} // verus!
