//! From the untagged geometry of a UI element to a rectangle in logical
//! pixels.

use crate::units::LogicalRect;
use euclid::{Rect, UnknownUnit};
use vstd::prelude::*;

// Named in specifications only.
#[allow(unused_imports)]
use core::marker::PhantomData;
#[allow(unused_imports)]
use euclid::{Point2D, Size2D};

verus! {

/// A UI element that can report where it lies.
///
/// The rectangle carries no unit. By convention its numbers are logical
/// pixels; an element that reports device pixels here is mislabelled by
/// everything below, and nothing can detect that.
///
/// The query is expected to return for every element and to leave it as it
/// was. It borrows the element, so the element stays where it is until the
/// answer is there.
pub trait Item<T> {
    /// Whether `untyped` is an answer that the element may give.
    ///
    /// An element that does not say otherwise may give any answer. A verified
    /// element narrows this to what its `geometry` is proved to return.
    open spec fn may_report(&self, untyped: Rect<T, UnknownUnit>) -> bool {
        true
    }

    /// Reports the element's geometry.
    fn geometry(&self) -> (untyped: Rect<T, UnknownUnit>)
        ensures
            self.may_report(untyped),
    ;
}

/// A reference to an element whose concrete type is not known.
pub type ItemRef<'a, T> = &'a dyn Item<T>;

/// The rectangle with the four components of `untyped`, read as logical
/// pixels.
pub open spec fn logical_rect_of<T>(untyped: Rect<T, UnknownUnit>) -> LogicalRect<T> {
    Rect {
        origin: Point2D { x: untyped.origin.x, y: untyped.origin.y, _unit: PhantomData },
        size: Size2D {
            width: untyped.size.width,
            height: untyped.size.height,
            _unit: PhantomData,
        },
    }
}

/// The rectangle with the four components of `rect` and no unit.
pub open spec fn untyped_rect_of<T, U>(rect: Rect<T, U>) -> Rect<T, UnknownUnit> {
    Rect {
        origin: Point2D { x: rect.origin.x, y: rect.origin.y, _unit: PhantomData },
        size: Size2D { width: rect.size.width, height: rect.size.height, _unit: PhantomData },
    }
}

/// Labels an untagged rectangle as logical. No number changes; only the unit
/// does.
pub fn logical_rect<T: Copy>(untyped: &Rect<T, UnknownUnit>) -> (logical: LogicalRect<T>)
    ensures
        logical == logical_rect_of(*untyped),
{
    Rect::from_untyped(untyped)
}

/// The geometry of an element as a rectangle in logical pixels.
pub trait LogicalItemGeometry<T> {
    /// Whether `logical` is a rectangle that the element may be found at.
    spec fn may_report_logical(&self, logical: LogicalRect<T>) -> bool;

    /// Asks the element for its geometry and labels the answer as logical.
    fn logical_geometry(&self) -> (logical: LogicalRect<T>)
        ensures
            self.may_report_logical(logical),
    ;
}

/// For a reference to an element of a known type.
impl<'a, T: Copy, I: Item<T>> LogicalItemGeometry<T> for &'a I {
    /// Exactly the element's own answers, labelled.
    open spec fn may_report_logical(&self, logical: LogicalRect<T>) -> bool {
        self.may_report(untyped_rect_of(logical))
    }

    fn logical_geometry(&self) -> (logical: LogicalRect<T>) {
        logical_rect(&self.geometry())
    }
}

/// For a reference to an element of unknown type: the same query, reached
/// through dynamic dispatch.
impl<'a, T: Copy> LogicalItemGeometry<T> for ItemRef<'a, T> {
    /// Exactly the element's own answers, labelled.
    open spec fn may_report_logical(&self, logical: LogicalRect<T>) -> bool {
        self.may_report(untyped_rect_of(logical))
    }

    fn logical_geometry(&self) -> (logical: LogicalRect<T>) {
        logical_rect(&self.geometry())
    }
}

/// Labelling keeps every number where it was, and dropping the label again
/// gives back the rectangle that was labelled.
pub proof fn lemma_logical_rect_keeps_components<T>(untyped: Rect<T, UnknownUnit>)
    ensures
        logical_rect_of(untyped).origin.x == untyped.origin.x,
        logical_rect_of(untyped).origin.y == untyped.origin.y,
        logical_rect_of(untyped).size.width == untyped.size.width,
        logical_rect_of(untyped).size.height == untyped.size.height,
        untyped_rect_of(logical_rect_of(untyped)) == untyped,
{
}

/// How an element is reached makes no difference. If the element behind a
/// typed reference and the one behind an untyped reference can both only
/// answer `answer`, then whatever either reference reports is `answer`
/// labelled as logical, and so the two reports are equal.
pub proof fn lemma_both_references_report_the_labelled_answer<T: Copy, I: Item<T>>(
    typed: &I,
    erased: ItemRef<T>,
    answer: Rect<T, UnknownUnit>,
    from_typed: LogicalRect<T>,
    from_erased: LogicalRect<T>,
)
    requires
        forall|untyped: Rect<T, UnknownUnit>| typed.may_report(untyped) ==> untyped == answer,
        forall|untyped: Rect<T, UnknownUnit>| erased.may_report(untyped) ==> untyped == answer,
        typed.may_report_logical(from_typed),
        erased.may_report_logical(from_erased),
    ensures
        from_typed == logical_rect_of(answer),
        from_erased == logical_rect_of(answer),
        from_typed == from_erased,
{
}

} // verus!
