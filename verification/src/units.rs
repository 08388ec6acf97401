//! The two pixel domains and the tagged types that belong to each.

use vstd::prelude::*;

verus! {

/// Tag of the physical domain: one unit is one pixel of the device that is
/// drawn to.
///
/// The tag has no value that code outside this module could build; it only
/// ever stands as the unit parameter of a tagged type. Because it is a type of
/// its own, a physical value and a logical one never meet in one expression:
///
/// ```compile_fail
/// use unit_geometry::{LogicalLength, PhysicalLength};
/// let authored: LogicalLength<i32> = LogicalLength::new(3);
/// let drawn: PhysicalLength<i32> = PhysicalLength::new(6);
/// let _ = authored + drawn;
/// ```
pub struct PhysicalPx(());

/// Tag of the logical domain: the resolution-independent unit in which a user
/// interface is authored. One logical pixel may cover several physical ones.
///
/// Like [`PhysicalPx`], it is only ever used as a type parameter.
pub struct LogicalPx(());

/// A distance in logical pixels.
pub type LogicalLength<T> = euclid::Length<T, LogicalPx>;

/// A rectangle in logical pixels.
pub type LogicalRect<T> = euclid::Rect<T, LogicalPx>;

/// A position in logical pixels.
pub type LogicalPoint<T> = euclid::Point2D<T, LogicalPx>;

/// An extent in logical pixels.
pub type LogicalSize<T> = euclid::Size2D<T, LogicalPx>;

/// A distance in physical pixels.
pub type PhysicalLength<T> = euclid::Length<T, PhysicalPx>;

/// A rectangle in physical pixels.
pub type PhysicalRect<T> = euclid::Rect<T, PhysicalPx>;

/// A position in physical pixels.
pub type PhysicalPoint<T> = euclid::Point2D<T, PhysicalPx>;

/// An extent in physical pixels.
pub type PhysicalSize<T> = euclid::Size2D<T, PhysicalPx>;

/// The number of physical pixels per logical pixel. Multiplying a logical
/// value by it gives the physical value, dividing a physical value by it gives
/// the logical one. Values are meant to cross between the two domains in no
/// other way.
pub type ScaleFactor<T> = euclid::Scale<T, LogicalPx, PhysicalPx>;

} // verus!
