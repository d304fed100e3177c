//! Nested relative layout: views described by pixel or percentage geometry,
//! resolved against their parent's rectangle into absolute rectangles and
//! emitted as an ordered sequence of drawable primitives.

pub mod geometry;
pub mod transform;
pub mod component;
pub mod view;
pub mod laws;
