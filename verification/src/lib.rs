//! Rectangles with whole-number sides, and their area.
//!
//! The area is offered in two call forms that always agree: as a method,
//! [`Rectangle::area`], and as a free function, [`get_area`]. Both return the
//! exact product of the two sides; a rectangle whose area does not fit in
//! `usize` is excluded by their preconditions, so neither form ever wraps or
//! aborts.
//!
//! The module [`laws`] holds the facts about the area that callers can rely on.

pub mod laws;
pub mod rectangle;

pub use rectangle::{area_of, get_area, spec_get_area, Rectangle};
