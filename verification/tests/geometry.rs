use stack_layout::size::max;
use stack_layout::{
    AlignedAxis, Alignment, Axis, LastSpacing, LayoutAxes, LayoutSpace, LayoutSpaces, Point,
    Size2D, SizeBox, MAX_SPACES,
};

fn axes_of(primary: Axis, secondary: Axis) -> LayoutAxes {
    LayoutAxes::new(
        AlignedAxis::new(primary, Alignment::Origin, false),
        AlignedAxis::new(secondary, Alignment::Origin, false),
    )
}

fn all_axes() -> Vec<LayoutAxes> {
    vec![
        axes_of(Axis::LeftToRight, Axis::TopToBottom),
        axes_of(Axis::LeftToRight, Axis::BottomToTop),
        axes_of(Axis::RightToLeft, Axis::TopToBottom),
        axes_of(Axis::RightToLeft, Axis::BottomToTop),
        axes_of(Axis::TopToBottom, Axis::LeftToRight),
        axes_of(Axis::TopToBottom, Axis::RightToLeft),
        axes_of(Axis::BottomToTop, Axis::LeftToRight),
        axes_of(Axis::BottomToTop, Axis::RightToLeft),
    ]
}

#[test]
fn extent_round_trips_through_generalized_coordinates() {
    for axes in all_axes() {
        for extent in [Size2D::new(0, 0), Size2D::new(3, 7), Size2D::new(u32::MAX, 1)] {
            assert_eq!(axes.specialize(axes.generalize(extent)), extent);
            assert_eq!(axes.generalize(axes.specialize(extent)), extent);
        }
    }
}

#[test]
fn position_round_trips_through_generalized_coordinates() {
    for axes in all_axes() {
        for point in [Point::new(0, 0), Point::new(-3, 7), Point::new(i64::MAX, i64::MIN)] {
            assert_eq!(axes.specialize_point(axes.generalize_point(point)), point);
            assert_eq!(axes.generalize_point(axes.specialize_point(point)), point);
        }
    }
}

#[test]
fn horizontal_primary_axis_keeps_coordinates() {
    let axes = axes_of(Axis::RightToLeft, Axis::TopToBottom);
    assert_eq!(axes.generalize(Size2D::new(3, 7)), Size2D::new(3, 7));
    assert_eq!(axes.specialize(Size2D::new(3, 7)), Size2D::new(3, 7));
    assert_eq!(axes.generalize_point(Point::new(-3, 7)), Point::new(-3, 7));
    assert_eq!(axes.specialize_point(Point::new(-3, 7)), Point::new(-3, 7));
}

#[test]
fn vertical_primary_axis_swaps_coordinates() {
    let axes = axes_of(Axis::BottomToTop, Axis::LeftToRight);
    assert_eq!(axes.generalize(Size2D::new(3, 7)), Size2D::new(7, 3));
    assert_eq!(axes.specialize(Size2D::new(3, 7)), Size2D::new(7, 3));
    assert_eq!(axes.generalize_point(Point::new(-3, 7)), Point::new(7, -3));
    assert_eq!(axes.specialize_point(Point::new(-3, 7)), Point::new(7, -3));
}

#[test]
fn axis_directions() {
    assert!(Axis::LeftToRight.is_horizontal());
    assert!(Axis::RightToLeft.is_horizontal());
    assert!(!Axis::TopToBottom.is_horizontal());
    assert!(!Axis::BottomToTop.is_horizontal());
    assert!(Axis::LeftToRight.is_positive());
    assert!(!Axis::RightToLeft.is_positive());
    assert!(Axis::TopToBottom.is_positive());
    assert!(!Axis::BottomToTop.is_positive());
    assert_eq!(Axis::LeftToRight.factor(), 1);
    assert_eq!(Axis::RightToLeft.factor(), -1);
    assert_eq!(Axis::TopToBottom.factor(), 1);
    assert_eq!(Axis::BottomToTop.factor(), -1);
}

#[test]
fn alignment_inverse() {
    assert_eq!(Alignment::Origin.inv(), Alignment::End);
    assert_eq!(Alignment::Center.inv(), Alignment::Center);
    assert_eq!(Alignment::End.inv(), Alignment::Origin);
}

#[test]
fn anchor_along_a_positive_axis() {
    assert_eq!(AlignedAxis::new(Axis::LeftToRight, Alignment::Origin, false).anchor(7), 0);
    assert_eq!(AlignedAxis::new(Axis::LeftToRight, Alignment::Center, false).anchor(7), 3);
    assert_eq!(AlignedAxis::new(Axis::TopToBottom, Alignment::End, false).anchor(7), 7);
}

#[test]
fn anchor_along_a_negative_axis_is_mirrored() {
    assert_eq!(AlignedAxis::new(Axis::RightToLeft, Alignment::Origin, false).anchor(7), 7);
    assert_eq!(AlignedAxis::new(Axis::RightToLeft, Alignment::Center, false).anchor(8), 4);
    assert_eq!(AlignedAxis::new(Axis::BottomToTop, Alignment::End, false).anchor(7), 0);
}

#[test]
fn anchor_of_an_extent_takes_each_axis() {
    let axes = LayoutAxes::new(
        AlignedAxis::new(Axis::LeftToRight, Alignment::Center, false),
        AlignedAxis::new(Axis::BottomToTop, Alignment::Origin, true),
    );
    assert_eq!(axes.anchor(Size2D::new(10, 20)), Size2D::new(5, 20));
    assert!(!axes.primary.needs_expansion());
    assert!(axes.secondary.needs_expansion());
}

#[test]
fn extent_fits_if_no_component_is_larger() {
    assert!(Size2D::new(10, 20).fits(Size2D::new(10, 20)));
    assert!(Size2D::new(10, 20).fits(Size2D::new(0, 0)));
    assert!(!Size2D::new(10, 20).fits(Size2D::new(11, 20)));
    assert!(!Size2D::new(10, 20).fits(Size2D::new(10, 21)));
}

#[test]
fn extent_constructors() {
    assert_eq!(Size2D::zero(), Size2D { x: 0, y: 0 });
    assert_eq!(Size2D::with_y(4), Size2D { x: 0, y: 4 });
    assert!(Size2D::zero().is_zero());
    assert!(!Size2D::with_y(1).is_zero());
    assert!(!Size2D::new(1, 0).is_zero());
    assert_eq!(Size2D::new(3, 4).to_point(), Point { x: 3, y: 4 });
    assert_eq!(Size2D::new(u32::MAX, 0).to_point(), Point::new(4294967295, 0));
    assert_eq!(SizeBox::zero(), SizeBox { left: 0, top: 0, right: 0, bottom: 0 });
    assert_eq!(SizeBox::new(1, 2, 3, 4), SizeBox { left: 1, top: 2, right: 3, bottom: 4 });
}

#[test]
fn maximum_is_taken_by_component() {
    assert_eq!(max(3, 4), 4);
    assert_eq!(max(4, 3), 4);
    assert_eq!(Size2D::new(3, 9).max(Size2D::new(5, 2)), Size2D::new(5, 9));
}

#[test]
fn padded_adds_the_padding() {
    assert_eq!(Size2D::new(10, 20).padded(SizeBox::new(1, 2, 3, 4)), Size2D::new(14, 26));
}

#[test]
fn padded_saturates() {
    assert_eq!(
        Size2D::new(u32::MAX - 5, 10).padded(SizeBox::new(10, 1, 10, 1)),
        Size2D::new(u32::MAX, 12)
    );
    assert_eq!(
        Size2D::new(0, u32::MAX).padded(SizeBox::new(u32::MAX, 0, u32::MAX, 0)),
        Size2D::new(u32::MAX, u32::MAX)
    );
}

#[test]
fn unpadded_removes_the_padding() {
    assert_eq!(Size2D::new(14, 26).unpadded(SizeBox::new(1, 2, 3, 4)), Size2D::new(10, 20));
}

#[test]
fn unpadded_stops_at_zero() {
    assert_eq!(Size2D::new(10, 10).unpadded(SizeBox::new(6, 6, 6, 3)), Size2D::new(0, 1));
    assert_eq!(
        Size2D::new(10, 10).unpadded(SizeBox::new(u32::MAX, 0, u32::MAX, 10)),
        Size2D::new(0, 0)
    );
}

#[test]
fn area_start_and_usable_extent() {
    let area =
        LayoutSpace { dimensions: Size2D::new(100, 80), padding: SizeBox::new(1, 2, 3, 4) };
    assert_eq!(area.start(), Size2D::new(1, 2));
    assert_eq!(area.usable(), Size2D::new(96, 74));
    assert_eq!(
        area.usable_space(),
        LayoutSpace { dimensions: Size2D::new(96, 74), padding: SizeBox::zero() }
    );
}

#[test]
fn list_of_areas_holds_what_it_was_made_from() {
    let first = LayoutSpace { dimensions: Size2D::new(1, 2), padding: SizeBox::zero() };
    let second = LayoutSpace { dimensions: Size2D::new(3, 4), padding: SizeBox::new(1, 1, 1, 1) };
    let third = LayoutSpace { dimensions: Size2D::new(5, 6), padding: SizeBox::zero() };
    let spaces = LayoutSpaces::from_vec(vec![first, second, third]);
    assert_eq!(spaces.len(), 3);
    assert_eq!(spaces.to_vec(), vec![first, second, third]);
    assert_eq!(spaces.get(0), Some(first));
    assert_eq!(spaces.get(2), Some(third));
    assert_eq!(spaces.get(3), None);
}

#[test]
fn empty_list_of_areas() {
    let spaces = LayoutSpaces::from_vec(vec![]);
    assert_eq!(spaces.len(), 0);
    assert_eq!(spaces.to_vec(), vec![]);
    assert_eq!(spaces.get(0), None);
    assert!(MAX_SPACES >= 1 << 24);
}

#[test]
fn pending_soft_spacing_amount() {
    assert_eq!(LastSpacing::Forbidden.soft_or_zero(), 0);
    assert_eq!(LastSpacing::Allowed.soft_or_zero(), 0);
    assert_eq!(LastSpacing::Soft(12).soft_or_zero(), 12);
}

#[test]
fn list_of_areas_clone_holds_the_same_areas() {
    let first = LayoutSpace { dimensions: Size2D::new(1, 2), padding: SizeBox::zero() };
    let second = LayoutSpace { dimensions: Size2D::new(3, 4), padding: SizeBox::new(1, 1, 1, 1) };
    let third = LayoutSpace { dimensions: Size2D::new(5, 6), padding: SizeBox::zero() };
    let spaces = LayoutSpaces::from_vec(vec![first, second, third]);
    let copy = spaces.clone();
    assert_eq!(copy.len(), 3);
    assert_eq!(copy.to_vec(), vec![first, second, third]);
    assert_eq!(spaces.to_vec(), vec![first, second, third]);
    assert_eq!(LayoutSpaces::from_vec(vec![]).clone().len(), 0);
}
