//! Unit-tagged geometry for a UI rendering pipeline.
//!
//! Lengths, points, sizes and rectangles carry a tag that says whether they
//! are measured in logical pixels (resolution independent, as authored) or in
//! physical pixels (as drawn on the device). The tagged types are those of
//! `euclid`; this crate adds the two tags, accessors that split a composite
//! value into lengths that keep its tag, and the step that labels the
//! untagged geometry reported by a UI element as logical.

pub mod components;
pub mod euclid_specs;
pub mod item_geometry;
pub mod units;

pub use crate::components::{PointLengths, RectLengths, SizeLengths};
pub use crate::item_geometry::{logical_rect, Item, ItemRef, LogicalItemGeometry};
pub use crate::units::{
    LogicalLength, LogicalPoint, LogicalPx, LogicalRect, LogicalSize, PhysicalLength,
    PhysicalPoint, PhysicalPx, PhysicalRect, PhysicalSize, ScaleFactor,
};
