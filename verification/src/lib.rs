//! Verified core of an interactive screenshot utility.
//!
//! The library holds the capture-and-export logic: rectangle geometry,
//! the drag-selection state machine, the frame-acquisition retry policy,
//! the present-scope decisions of the preview renderer, and the export
//! pipeline that unpads a mapped GPU surface and encodes it as a PNG.
//! The platform shell (window, GPU device, clipboard) lives outside and
//! drives this library with plain values.

pub mod codec;
pub mod export;
pub mod geometry;
pub mod acquire;
pub mod render;
pub mod selection;
