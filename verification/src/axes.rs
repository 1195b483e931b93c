//! Layouting axes: directions, alignments and the mapping between the
//! physical (specialized) and the direction-agnostic (generalized) coordinates.
use crate::size::{Point, Size, Size2D};
use vstd::prelude::*;

verus! {

/// A direction in which content can flow.
#[derive(Clone, Copy, Debug, PartialEq, Eq, Structural)]
pub enum Axis {
    LeftToRight,
    RightToLeft,
    TopToBottom,
    BottomToTop,
}

/// Where content is placed along an axis, relative to the axis' direction.
#[derive(Clone, Copy, Debug, PartialEq, Eq, Structural)]
pub enum Alignment {
    Origin,
    Center,
    End,
}

/// An axis together with the alignment along it and whether content has to
/// stretch over the whole usable extent along it.
#[derive(Clone, Copy, Debug, PartialEq, Eq, Structural)]
pub struct AlignedAxis {
    pub axis: Axis,
    pub alignment: Alignment,
    pub expand: bool,
}

/// The primary axis, along which boxes are aligned, and the secondary axis,
/// along which they are stacked.
#[derive(Clone, Copy, Debug, PartialEq, Eq, Structural)]
pub struct LayoutAxes {
    pub primary: AlignedAxis,
    pub secondary: AlignedAxis,
}

impl Axis {
    pub open spec fn spec_is_horizontal(&self) -> bool {
        *self is LeftToRight || *self is RightToLeft
    }

    /// Whether the axis runs along the x-axis.
    #[verifier::when_used_as_spec(spec_is_horizontal)]
    pub fn is_horizontal(&self) -> (r: bool)
        ensures
            r == self.spec_is_horizontal(),
    {
        match self {
            Axis::LeftToRight => true,
            Axis::RightToLeft => true,
            Axis::TopToBottom => false,
            Axis::BottomToTop => false,
        }
    }

    pub open spec fn spec_is_positive(&self) -> bool {
        *self is LeftToRight || *self is TopToBottom
    }

    /// Whether the axis grows towards larger coordinates.
    #[verifier::when_used_as_spec(spec_is_positive)]
    pub fn is_positive(&self) -> (r: bool)
        ensures
            r == self.spec_is_positive(),
    {
        match self {
            Axis::LeftToRight => true,
            Axis::RightToLeft => false,
            Axis::TopToBottom => true,
            Axis::BottomToTop => false,
        }
    }

    pub open spec fn spec_factor(&self) -> i64 {
        if self.spec_is_positive() {
            1i64
        } else {
            (-1) as i64
        }
    }

    /// `1` for an axis that grows towards larger coordinates, `-1` for one
    /// that grows towards smaller ones.
    #[verifier::when_used_as_spec(spec_factor)]
    pub fn factor(&self) -> (r: i64)
        ensures
            r == self.spec_factor(),
    {
        if self.is_positive() {
            1
        } else {
            -1
        }
    }
}

impl Alignment {
    pub open spec fn spec_inv(&self) -> Alignment {
        match *self {
            Alignment::Origin => Alignment::End,
            Alignment::Center => Alignment::Center,
            Alignment::End => Alignment::Origin,
        }
    }

    /// The alignment seen from the other end of the axis.
    #[verifier::when_used_as_spec(spec_inv)]
    pub fn inv(&self) -> (r: Alignment)
        ensures
            r == self.spec_inv(),
    {
        match self {
            Alignment::Origin => Alignment::End,
            Alignment::Center => Alignment::Center,
            Alignment::End => Alignment::Origin,
        }
    }
}

impl AlignedAxis {
    /// The axis with the given direction, alignment and expansion flag.
    pub fn new(axis: Axis, alignment: Alignment, expand: bool) -> (r: AlignedAxis)
        ensures
            r == (AlignedAxis { axis, alignment, expand }),
    {
        AlignedAxis { axis, alignment, expand }
    }

    pub open spec fn spec_needs_expansion(&self) -> bool {
        self.expand
    }

    /// Whether content has to fill the whole usable extent along this axis.
    #[verifier::when_used_as_spec(spec_needs_expansion)]
    pub fn needs_expansion(&self) -> (r: bool)
        ensures
            r == self.spec_needs_expansion(),
    {
        self.expand
    }

    /// The alignment in physical terms: along an axis that grows towards
    /// smaller coordinates the origin is the far end.
    pub open spec fn physical_alignment(&self) -> Alignment {
        if self.axis.spec_is_positive() {
            self.alignment
        } else {
            self.alignment.spec_inv()
        }
    }

    pub open spec fn spec_anchor(&self, space: Size) -> Size {
        match self.physical_alignment() {
            Alignment::Origin => 0,
            Alignment::Center => space / 2,
            Alignment::End => space,
        }
    }

    /// The anchor of an extent `space` along this axis: the distance from its
    /// start to the point that the alignment refers to. That is zero, half of
    /// `space` (rounded down) or `space` for an alignment that is physically at
    /// the origin, the center or the end.
    #[verifier::when_used_as_spec(spec_anchor)]
    pub fn anchor(&self, space: Size) -> (r: Size)
        ensures
            r == self.spec_anchor(space),
            r <= space,
    {
        let alignment = if self.axis.is_positive() {
            self.alignment
        } else {
            self.alignment.inv()
        };
        match alignment {
            Alignment::Origin => 0,
            Alignment::Center => space / 2,
            Alignment::End => space,
        }
    }
}

impl LayoutAxes {
    /// The pair of the given primary and secondary axis.
    pub fn new(primary: AlignedAxis, secondary: AlignedAxis) -> (r: LayoutAxes)
        ensures
            r == (LayoutAxes { primary, secondary }),
    {
        LayoutAxes { primary, secondary }
    }

    pub open spec fn spec_generalize(&self, size: Size2D) -> Size2D {
        if self.primary.axis.spec_is_horizontal() {
            size
        } else {
            Size2D { x: size.y, y: size.x }
        }
    }

    /// Maps a specialized extent to the generalized one: its `x` is the extent
    /// along the primary axis, its `y` the extent along the secondary axis.
    #[verifier::when_used_as_spec(spec_generalize)]
    pub fn generalize(&self, size: Size2D) -> (r: Size2D)
        ensures
            r == self.spec_generalize(size),
            self.spec_specialize(r) == size,
    {
        if self.primary.axis.is_horizontal() {
            size
        } else {
            Size2D { x: size.y, y: size.x }
        }
    }

    pub open spec fn spec_specialize(&self, size: Size2D) -> Size2D {
        if self.primary.axis.spec_is_horizontal() {
            size
        } else {
            Size2D { x: size.y, y: size.x }
        }
    }

    /// Maps a generalized extent back to the specialized one: its `x` is the
    /// horizontal extent, its `y` the vertical one.
    #[verifier::when_used_as_spec(spec_specialize)]
    pub fn specialize(&self, size: Size2D) -> (r: Size2D)
        ensures
            r == self.spec_specialize(size),
            self.spec_generalize(r) == size,
    {
        if self.primary.axis.is_horizontal() {
            size
        } else {
            Size2D { x: size.y, y: size.x }
        }
    }

    pub open spec fn spec_generalize_point(&self, point: Point) -> Point {
        if self.primary.axis.spec_is_horizontal() {
            point
        } else {
            Point { x: point.y, y: point.x }
        }
    }

    /// Maps a specialized position to the generalized one.
    #[verifier::when_used_as_spec(spec_generalize_point)]
    pub fn generalize_point(&self, point: Point) -> (r: Point)
        ensures
            r == self.spec_generalize_point(point),
            self.spec_specialize_point(r) == point,
    {
        if self.primary.axis.is_horizontal() {
            point
        } else {
            Point { x: point.y, y: point.x }
        }
    }

    pub open spec fn spec_specialize_point(&self, point: Point) -> Point {
        if self.primary.axis.spec_is_horizontal() {
            point
        } else {
            Point { x: point.y, y: point.x }
        }
    }

    /// Maps a generalized position back to the specialized one.
    #[verifier::when_used_as_spec(spec_specialize_point)]
    pub fn specialize_point(&self, point: Point) -> (r: Point)
        ensures
            r == self.spec_specialize_point(point),
            self.spec_generalize_point(r) == point,
    {
        if self.primary.axis.is_horizontal() {
            point
        } else {
            Point { x: point.y, y: point.x }
        }
    }

    pub open spec fn spec_anchor(&self, space: Size2D) -> Size2D {
        Size2D { x: self.primary.spec_anchor(space.x), y: self.secondary.spec_anchor(space.y) }
    }

    /// The anchors of a generalized extent along both axes.
    #[verifier::when_used_as_spec(spec_anchor)]
    pub fn anchor(&self, space: Size2D) -> (r: Size2D)
        ensures
            r == self.spec_anchor(space),
            space.spec_fits(r),
    {
        Size2D { x: self.primary.anchor(space.x), y: self.secondary.anchor(space.y) }
    }
}

/// Generalizing an extent and specializing the result under the same axes
/// gives the extent back, and so does specializing first.
pub proof fn lemma_extent_round_trip(axes: LayoutAxes, v: Size2D)
    ensures
        axes.spec_specialize(axes.spec_generalize(v)) == v,
        axes.spec_generalize(axes.spec_specialize(v)) == v,
{
}

/// Generalizing a position and specializing the result under the same axes
/// gives the position back, and so does specializing first.
pub proof fn lemma_point_round_trip(axes: LayoutAxes, p: Point)
    ensures
        axes.spec_specialize_point(axes.spec_generalize_point(p)) == p,
        axes.spec_generalize_point(axes.spec_specialize_point(p)) == p,
{
}

} // verus!
