//! Lengths, two-dimensional extents, paddings and positions.
//!
//! Extents are unsigned: a negative extent cannot be written down. Positions
//! are signed, because a box stacked against the growth direction of an axis
//! may come to lie before the origin of its area.
use vstd::prelude::*;

verus! {

/// A length in layout units.
pub type Size = u32;

/// A two-dimensional extent.
#[derive(Clone, Copy, Debug, PartialEq, Eq, Structural)]
pub struct Size2D {
    /// The horizontal extent (in generalized coordinates: the primary one).
    pub x: Size,
    /// The vertical extent (in generalized coordinates: the secondary one).
    pub y: Size,
}

/// The padding on the four sides of an area.
#[derive(Clone, Copy, Debug, PartialEq, Eq, Structural)]
pub struct SizeBox {
    pub left: Size,
    pub top: Size,
    pub right: Size,
    pub bottom: Size,
}

/// A position, or a displacement between two positions.
#[derive(Clone, Copy, Debug, PartialEq, Eq, Structural)]
pub struct Point {
    pub x: i64,
    pub y: i64,
}

/// `a - b`, or zero where `b` is the larger one.
pub open spec fn clamped_sub(a: int, b: int) -> int {
    if a >= b {
        a - b
    } else {
        0
    }
}

/// `n`, or the largest length where `n` is larger than that.
pub open spec fn saturated(n: int) -> Size {
    if n > Size::MAX {
        Size::MAX
    } else {
        n as Size
    }
}

/// The larger of two lengths.
pub open spec fn spec_max(a: Size, b: Size) -> Size {
    if a >= b {
        a
    } else {
        b
    }
}

/// The larger of two lengths.
#[verifier::when_used_as_spec(spec_max)]
pub fn max(a: Size, b: Size) -> (r: Size)
    ensures
        r == spec_max(a, b),
{
    if a >= b {
        a
    } else {
        b
    }
}

impl Size2D {
    /// The extent with the given components.
    pub fn new(x: Size, y: Size) -> (r: Size2D)
        ensures
            r == (Size2D { x, y }),
    {
        Size2D { x, y }
    }

    pub open spec fn spec_zero() -> Size2D {
        Size2D { x: 0, y: 0 }
    }

    /// The extent that is zero along both axes.
    #[verifier::when_used_as_spec(spec_zero)]
    pub fn zero() -> (r: Size2D)
        ensures
            r == Size2D::spec_zero(),
    {
        Size2D { x: 0, y: 0 }
    }

    pub open spec fn spec_with_y(y: Size) -> Size2D {
        Size2D { x: 0, y }
    }

    /// The extent that is `y` along the y-axis and zero along the x-axis.
    #[verifier::when_used_as_spec(spec_with_y)]
    pub fn with_y(y: Size) -> (r: Size2D)
        ensures
            r == Size2D::spec_with_y(y),
    {
        Size2D { x: 0, y }
    }

    pub open spec fn spec_is_zero(&self) -> bool {
        self.x == 0 && self.y == 0
    }

    /// Whether both components are zero.
    #[verifier::when_used_as_spec(spec_is_zero)]
    pub fn is_zero(&self) -> (r: bool)
        ensures
            r == self.spec_is_zero(),
    {
        self.x == 0 && self.y == 0
    }

    pub open spec fn spec_fits(&self, other: Size2D) -> bool {
        self.x >= other.x && self.y >= other.y
    }

    /// Whether `other` fits into this extent: it is no larger along either axis.
    #[verifier::when_used_as_spec(spec_fits)]
    pub fn fits(&self, other: Size2D) -> (r: bool)
        ensures
            r == self.spec_fits(other),
    {
        self.x >= other.x && self.y >= other.y
    }

    pub open spec fn spec_max(&self, other: Size2D) -> Size2D {
        Size2D { x: spec_max(self.x, other.x), y: spec_max(self.y, other.y) }
    }

    /// The component-wise maximum of two extents.
    #[verifier::when_used_as_spec(spec_max)]
    pub fn max(&self, other: Size2D) -> (r: Size2D)
        ensures
            r == self.spec_max(other),
    {
        Size2D { x: self::max(self.x, other.x), y: self::max(self.y, other.y) }
    }

    pub open spec fn spec_padded(&self, padding: SizeBox) -> Size2D {
        Size2D {
            x: saturated(self.x + padding.left + padding.right),
            y: saturated(self.y + padding.top + padding.bottom),
        }
    }

    /// This extent grown by `padding` on all four sides. A component that
    /// would exceed the largest length is the largest length.
    #[verifier::when_used_as_spec(spec_padded)]
    pub fn padded(&self, padding: SizeBox) -> (r: Size2D)
        ensures
            r == self.spec_padded(padding),
    {
        Size2D {
            x: self.x.saturating_add(padding.left).saturating_add(padding.right),
            y: self.y.saturating_add(padding.top).saturating_add(padding.bottom),
        }
    }

    pub open spec fn spec_unpadded(&self, padding: SizeBox) -> Size2D {
        Size2D {
            x: clamped_sub(self.x as int, padding.left + padding.right) as Size,
            y: clamped_sub(self.y as int, padding.top + padding.bottom) as Size,
        }
    }

    /// This extent shrunk by `padding` on all four sides. A component that the
    /// padding uses up is zero.
    #[verifier::when_used_as_spec(spec_unpadded)]
    pub fn unpadded(&self, padding: SizeBox) -> (r: Size2D)
        ensures
            r == self.spec_unpadded(padding),
    {
        Size2D {
            x: self.x.saturating_sub(padding.left).saturating_sub(padding.right),
            y: self.y.saturating_sub(padding.top).saturating_sub(padding.bottom),
        }
    }

    pub open spec fn spec_to_point(&self) -> Point {
        Point { x: self.x as i64, y: self.y as i64 }
    }

    /// The position that lies this extent away from the zero position.
    #[verifier::when_used_as_spec(spec_to_point)]
    pub fn to_point(&self) -> (r: Point)
        ensures
            r == self.spec_to_point(),
    {
        Point { x: self.x as i64, y: self.y as i64 }
    }
}

impl SizeBox {
    /// The padding with the given sides.
    pub fn new(left: Size, top: Size, right: Size, bottom: Size) -> (r: SizeBox)
        ensures
            r == (SizeBox { left, top, right, bottom }),
    {
        SizeBox { left, top, right, bottom }
    }

    pub open spec fn spec_zero() -> SizeBox {
        SizeBox { left: 0, top: 0, right: 0, bottom: 0 }
    }

    /// The padding that is zero on all four sides.
    #[verifier::when_used_as_spec(spec_zero)]
    pub fn zero() -> (r: SizeBox)
        ensures
            r == SizeBox::spec_zero(),
    {
        SizeBox { left: 0, top: 0, right: 0, bottom: 0 }
    }
}

impl Point {
    /// The position with the given coordinates.
    pub fn new(x: i64, y: i64) -> (r: Point)
        ensures
            r == (Point { x, y }),
    {
        Point { x, y }
    }
}

} // verus!
