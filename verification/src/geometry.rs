//! The coordinate arithmetic that takes a position in a child rectangle to a
//! position in the parent's row-major buffer, stated over mathematical
//! integers.

use crate::dimensions::ImageDimensions;
use vstd::prelude::*;

verus! {

/// Whether a child of shape `child` with its top-left corner at
/// (`start_row`, `start_column`) can be read through: it has columns, it
/// lies inside a parent of shape `parent`, and a buffer of `len` elements
/// holds the whole parent.
pub open spec fn region_fits(
    parent: ImageDimensions,
    start_row: int,
    start_column: int,
    child: ImageDimensions,
    len: int,
) -> bool {
    &&& child.spec_columns() > 0
    &&& start_column + child.spec_columns() <= parent.spec_columns()
    &&& start_row + child.spec_rows() <= parent.spec_rows()
    &&& parent.spec_columns() * parent.spec_rows() <= len
}

/// The row of the child in which the linear index `idx` lies, for a child
/// `child_columns` wide.
pub open spec fn child_row(child_columns: int, idx: int) -> int {
    idx / child_columns
}

/// The column of the child in which the linear index `idx` lies, for a child
/// `child_columns` wide.
pub open spec fn child_column(child_columns: int, idx: int) -> int {
    idx % child_columns
}

/// The linear index, in a row-major parent `parent_columns` wide, of the
/// element at (`row`, `column`).
pub open spec fn row_major(parent_columns: int, row: int, column: int) -> int {
    row * parent_columns + column
}

/// The linear index in the parent of the child's element `idx`, for a child
/// `child_columns` wide whose top-left corner stands at
/// (`start_row`, `start_column`) of a parent `parent_columns` wide.
///
/// The column is not reduced modulo the parent's width: a child that reaches
/// past the parent's right edge runs on into the parent's next row.
pub open spec fn frame_index(
    parent_columns: int,
    start_row: int,
    start_column: int,
    child_columns: int,
    idx: int,
) -> int {
    row_major(
        parent_columns,
        start_row + child_row(child_columns, idx),
        start_column + child_column(child_columns, idx),
    )
}

/// A linear index splits into a row and a column of the child and is made of
/// them again; the column lies inside the child's width.
pub proof fn lemma_child_coordinates(child_columns: int, idx: int)
    requires
        child_columns > 0,
        idx >= 0,
    ensures
        0 <= child_row(child_columns, idx) <= idx,
        0 <= child_column(child_columns, idx) < child_columns,
        row_major(
            child_columns,
            child_row(child_columns, idx),
            child_column(child_columns, idx),
        ) == idx,
{
    assert(0 <= idx / child_columns <= idx && 0 <= idx % child_columns < child_columns && (idx
        / child_columns) * child_columns + idx % child_columns == idx) by (nonlinear_arith)
        requires
            child_columns > 0,
            idx >= 0,
    ;
}

/// An index inside a child of `child_rows` rows lies in one of those rows.
pub proof fn lemma_child_row_bound(child_columns: int, child_rows: int, idx: int)
    requires
        child_columns > 0,
        0 <= idx < child_columns * child_rows,
    ensures
        0 <= child_row(child_columns, idx) < child_rows,
{
    assert(0 <= idx / child_columns < child_rows) by (nonlinear_arith)
        requires
            child_columns > 0,
            0 <= idx < child_columns * child_rows,
    ;
}

/// A position inside a parent of `parent_rows` rows and `parent_columns`
/// columns has a linear index inside the parent's area.
pub proof fn lemma_row_major_bound(parent_columns: int, parent_rows: int, row: int, column: int)
    requires
        0 <= row < parent_rows,
        0 <= column < parent_columns,
    ensures
        0 <= row_major(parent_columns, row, column) < parent_columns * parent_rows,
{
    assert(0 <= row * parent_columns + column < parent_columns * parent_rows)
        by (nonlinear_arith)
        requires
            0 <= row < parent_rows,
            0 <= column < parent_columns,
    ;
}

/// Two positions inside the parent's width with the same linear index are
/// the same position.
pub proof fn lemma_row_major_injective(
    parent_columns: int,
    row_a: int,
    column_a: int,
    row_b: int,
    column_b: int,
)
    requires
        0 <= column_a < parent_columns,
        0 <= column_b < parent_columns,
        row_major(parent_columns, row_a, column_a) == row_major(parent_columns, row_b, column_b),
    ensures
        row_a == row_b,
        column_a == column_b,
{
    assert(row_a == row_b) by (nonlinear_arith)
        requires
            0 <= column_a < parent_columns,
            0 <= column_b < parent_columns,
            row_a * parent_columns + column_a == row_b * parent_columns + column_b,
    ;
}

/// A child that is as wide as its parent and starts at the parent's first
/// element is addressed exactly as the parent is.
pub proof fn lemma_frame_index_full_width(columns: int, idx: int)
    requires
        columns > 0,
        idx >= 0,
    ensures
        frame_index(columns, 0, 0, columns, idx) == idx,
{
    lemma_child_coordinates(columns, idx);
}

/// The first element of a child that starts at the parent's first element is
/// the parent's first element.
pub proof fn lemma_frame_index_origin(parent_columns: int, child_columns: int)
    requires
        child_columns > 0,
    ensures
        frame_index(parent_columns, 0, 0, child_columns, 0) == 0,
{
    lemma_child_coordinates(child_columns, 0);
    assert(0 * parent_columns == 0) by (nonlinear_arith);
}

} // verus!
