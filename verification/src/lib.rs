//! A radial "mandala" line-art generator.
//!
//! Given a page's pixel geometry, a ring count, a spoke count and a
//! center-placement mode, the library computes the exact set of primitives
//! that compose the pattern: `lines + 1` spokes radiating from an anchor
//! point and `rings + 1` rings (full circles or partial arcs) at evenly
//! rounded radii. All geometric decisions - anchor selection, angular span,
//! radius bound, spoke angles and ring radii - are computed here over plain
//! integers and exact rationals, with verified contracts. Turning the plan
//! into trigonometric path coordinates and writing the file is left to the
//! caller.

pub mod document;
pub mod modes;
pub mod page;
pub mod plan;

