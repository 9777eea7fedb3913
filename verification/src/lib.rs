//! Zero-copy views of rectangular regions inside a row-major image buffer.
//!
//! An image is a flat slice whose elements are laid out row after row. A
//! [`SliceView`] borrows such a slice and presents a smaller rectangle of it
//! as a densely addressed image of its own: a linear index into the child is
//! mapped to a linear index into the parent, and nothing is copied.

pub mod dimensions;
pub mod geometry;
pub mod lemmas;
pub mod view;

pub use dimensions::ImageDimensions;
pub use view::SliceView;
