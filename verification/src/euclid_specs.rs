//! What the verifier is told about `euclid`.
//!
//! The tagged types are declared with their fields, which are all public, so
//! contracts speak of `width`, `x`, `origin` and the like directly. The
//! constructors that this crate calls get the contract that their source
//! shows; nothing here is proved.

use euclid::{Length, Point2D, Rect, Size2D, UnknownUnit};
use vstd::prelude::*;

verus! {

/// `euclid::Length`: one value of type `T` and a zero-sized marker for the
/// unit.
#[verifier::external_type_specification]
#[verifier::reject_recursive_types(T)]
#[verifier::reject_recursive_types(Unit)]
pub struct ExLength<T, Unit>(Length<T, Unit>);

/// `euclid::Point2D`: `x`, `y` and the unit marker.
#[verifier::external_type_specification]
#[verifier::reject_recursive_types(T)]
#[verifier::reject_recursive_types(U)]
pub struct ExPoint2D<T, U>(Point2D<T, U>);

/// `euclid::Size2D`: `width`, `height` and the unit marker.
#[verifier::external_type_specification]
#[verifier::reject_recursive_types(T)]
#[verifier::reject_recursive_types(U)]
pub struct ExSize2D<T, U>(Size2D<T, U>);

/// `euclid::Rect`: an `origin` point and a `size`, both of the same unit.
#[verifier::external_type_specification]
#[verifier::reject_recursive_types(T)]
#[verifier::reject_recursive_types(U)]
pub struct ExRect<T, U>(Rect<T, U>);

/// `euclid::UnknownUnit`: the unit of values that carry no tag.
#[verifier::external_type_specification]
pub struct ExUnknownUnit(UnknownUnit);

/// `euclid::Length::new` is assumed to wrap exactly the value it is given.
pub assume_specification<T, U>[ Length::<T, U>::new ](x: T) -> (length: Length<T, U>)
    ensures
        length.0 == x,
;

/// `euclid::Size2D::new` is assumed to store its two arguments as `width` and
/// `height`, in this order.
pub assume_specification<T, U>[ Size2D::<T, U>::new ](width: T, height: T) -> (size: Size2D<T, U>)
    ensures
        size.width == width,
        size.height == height,
;

/// `euclid::Rect::from_untyped` is assumed to copy all four components of the
/// untagged rectangle and to change nothing but the unit.
pub assume_specification<T: Copy, U>[ Rect::<T, U>::from_untyped ](
    r: &Rect<T, UnknownUnit>,
) -> (tagged: Rect<T, U>)
    ensures
        tagged.origin.x == r.origin.x,
        tagged.origin.y == r.origin.y,
        tagged.size.width == r.size.width,
        tagged.size.height == r.size.height,
;

} // verus!
