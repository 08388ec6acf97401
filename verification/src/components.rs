//! Accessors that take a size, a point or a rectangle apart into lengths of
//! the same unit.

use euclid::{Length, Point2D, Rect, Size2D};
use vstd::prelude::*;

// Named in specifications only.
#[allow(unused_imports)]
use core::marker::PhantomData;

verus! {

/// The two extents of a size, each as a length.
pub trait SizeLengths {
    /// The length type that shares the size's component type and unit.
    type LengthType;

    /// The width, as a length.
    spec fn spec_width_length(&self) -> Self::LengthType;

    /// The height, as a length.
    spec fn spec_height_length(&self) -> Self::LengthType;

    #[verifier::when_used_as_spec(spec_width_length)]
    fn width_length(&self) -> (length: Self::LengthType)
        ensures
            length == self.spec_width_length(),
    ;

    #[verifier::when_used_as_spec(spec_height_length)]
    fn height_length(&self) -> (length: Self::LengthType)
        ensures
            length == self.spec_height_length(),
    ;
}

impl<T: Copy, U> SizeLengths for Size2D<T, U> {
    type LengthType = Length<T, U>;

    open spec fn spec_width_length(&self) -> Length<T, U> {
        Length(self.width, PhantomData)
    }

    open spec fn spec_height_length(&self) -> Length<T, U> {
        Length(self.height, PhantomData)
    }

    fn width_length(&self) -> (length: Length<T, U>)
        ensures
            length.0 == self.width,
    {
        Length::new(self.width)
    }

    fn height_length(&self) -> (length: Length<T, U>)
        ensures
            length.0 == self.height,
    {
        Length::new(self.height)
    }
}

/// The two coordinates of a point, each as a length.
pub trait PointLengths {
    /// The length type that shares the point's component type and unit.
    type LengthType;

    /// The horizontal coordinate, as a length.
    spec fn spec_x_length(&self) -> Self::LengthType;

    /// The vertical coordinate, as a length.
    spec fn spec_y_length(&self) -> Self::LengthType;

    #[verifier::when_used_as_spec(spec_x_length)]
    fn x_length(&self) -> (length: Self::LengthType)
        ensures
            length == self.spec_x_length(),
    ;

    #[verifier::when_used_as_spec(spec_y_length)]
    fn y_length(&self) -> (length: Self::LengthType)
        ensures
            length == self.spec_y_length(),
    ;
}

impl<T: Copy, U> PointLengths for Point2D<T, U> {
    type LengthType = Length<T, U>;

    open spec fn spec_x_length(&self) -> Length<T, U> {
        Length(self.x, PhantomData)
    }

    open spec fn spec_y_length(&self) -> Length<T, U> {
        Length(self.y, PhantomData)
    }

    fn x_length(&self) -> (length: Length<T, U>)
        ensures
            length.0 == self.x,
    {
        Length::new(self.x)
    }

    fn y_length(&self) -> (length: Length<T, U>)
        ensures
            length.0 == self.y,
    {
        Length::new(self.y)
    }
}

/// The extent of a rectangle: as a size, and as two lengths.
pub trait RectLengths {
    /// The size type that shares the rectangle's component type and unit.
    type SizeType;

    /// The length type that shares the rectangle's component type and unit.
    type LengthType;

    /// The rectangle's size.
    spec fn spec_size_length(&self) -> Self::SizeType;

    /// The rectangle's width, as a length.
    spec fn spec_width_length(&self) -> Self::LengthType;

    /// The rectangle's height, as a length.
    spec fn spec_height_length(&self) -> Self::LengthType;

    #[verifier::when_used_as_spec(spec_size_length)]
    fn size_length(&self) -> (size: Self::SizeType)
        ensures
            size == self.spec_size_length(),
    ;

    #[verifier::when_used_as_spec(spec_width_length)]
    fn width_length(&self) -> (length: Self::LengthType)
        ensures
            length == self.spec_width_length(),
    ;

    #[verifier::when_used_as_spec(spec_height_length)]
    fn height_length(&self) -> (length: Self::LengthType)
        ensures
            length == self.spec_height_length(),
    ;
}

impl<T: Copy, U> RectLengths for Rect<T, U> {
    type SizeType = Size2D<T, U>;

    type LengthType = Length<T, U>;

    open spec fn spec_size_length(&self) -> Size2D<T, U> {
        Size2D { width: self.size.width, height: self.size.height, _unit: PhantomData }
    }

    /// The width is read off the size, by the size's own accessor.
    open spec fn spec_width_length(&self) -> Length<T, U> {
        self.spec_size_length().spec_width_length()
    }

    /// The height is read off the size, by the size's own accessor.
    open spec fn spec_height_length(&self) -> Length<T, U> {
        self.spec_size_length().spec_height_length()
    }

    fn size_length(&self) -> (size: Size2D<T, U>)
        ensures
            size == self.size,
    {
        Size2D::new(self.size.width, self.size.height)
    }

    fn width_length(&self) -> (length: Length<T, U>)
        ensures
            length == self.size_length().width_length(),
            length.0 == self.size.width,
    {
        self.size_length().width_length()
    }

    fn height_length(&self) -> (length: Length<T, U>)
        ensures
            length == self.size_length().height_length(),
            length.0 == self.size.height,
    {
        self.size_length().height_length()
    }
}

/// The lengths of a size hold its two components, unchanged and in the
/// size's own unit.
pub proof fn lemma_size_lengths_hold_components<T: Copy, U>(size: Size2D<T, U>)
    ensures
        size.width_length().0 == size.width,
        size.height_length().0 == size.height,
{
}

/// The lengths of a point hold its two coordinates, unchanged and in the
/// point's own unit.
pub proof fn lemma_point_lengths_hold_coordinates<T: Copy, U>(point: Point2D<T, U>)
    ensures
        point.x_length().0 == point.x,
        point.y_length().0 == point.y,
{
}

/// A rectangle's width and height are exactly those of its size: asking the
/// rectangle, or asking the size it reports, gives the same length.
pub proof fn lemma_rect_lengths_are_size_lengths<T: Copy, U>(rect: Rect<T, U>)
    ensures
        rect.size_length() == rect.size,
        rect.width_length() == rect.size_length().width_length(),
        rect.height_length() == rect.size_length().height_length(),
        rect.width_length().0 == rect.size.width,
        rect.height_length().0 == rect.size.height,
{
}

} // verus!
