use stack_layout::{
    AlignedAxis, Alignment, Axis, Layout, LayoutAction, LayoutAxes, LayoutError, LayoutSpace,
    LayoutSpaces, MultiLayout, Point, Size2D, SizeBox, SpaceKind, StackContext, StackLayouter,
};

fn area(width: u32, height: u32) -> LayoutSpace {
    LayoutSpace { dimensions: Size2D::new(width, height), padding: SizeBox::zero() }
}

fn padded_area(width: u32, height: u32, padding: u32) -> LayoutSpace {
    LayoutSpace {
        dimensions: Size2D::new(width, height),
        padding: SizeBox::new(padding, padding, padding, padding),
    }
}

fn axes_of(
    primary: Axis,
    primary_align: Alignment,
    secondary: Axis,
    secondary_align: Alignment,
) -> LayoutAxes {
    LayoutAxes::new(
        AlignedAxis::new(primary, primary_align, false),
        AlignedAxis::new(secondary, secondary_align, false),
    )
}

fn default_axes() -> LayoutAxes {
    axes_of(Axis::LeftToRight, Alignment::Origin, Axis::TopToBottom, Alignment::Origin)
}

fn content(width: u32, height: u32) -> Layout {
    Layout { dimensions: Size2D::new(width, height), actions: vec![] }
}

fn layouter(areas: Vec<LayoutSpace>, axes: LayoutAxes, expand: bool) -> StackLayouter {
    StackLayouter::new(StackContext { spaces: LayoutSpaces::from_vec(areas), axes, expand })
}

fn placed(x: i64, y: i64, layout: Layout) -> LayoutAction {
    LayoutAction { position: Point::new(x, y), layout }
}

fn page(width: u32, height: u32, actions: Vec<LayoutAction>) -> Layout {
    Layout { dimensions: Size2D::new(width, height), actions }
}

#[test]
fn second_box_overflows_into_second_space() {
    let mut stack = layouter(vec![area(100, 100), area(100, 100)], default_axes(), false);
    assert_eq!(stack.add(content(30, 40)), Ok(()));
    assert_eq!(stack.add(content(50, 70)), Ok(()));
    let layouts = stack.finish();
    assert_eq!(
        layouts,
        MultiLayout {
            layouts: vec![
                page(30, 40, vec![placed(0, 0, content(30, 40))]),
                page(50, 70, vec![placed(0, 0, content(50, 70))]),
            ],
        }
    );
}

#[test]
fn box_taller_than_only_space_fails() {
    let mut stack = layouter(vec![area(100, 100)], default_axes(), false);
    assert!(stack.space_is_empty());
    assert!(stack.space_is_last());
    assert_eq!(stack.add(content(10, 150)), Err(LayoutError::NoRoom));
    let layouts = stack.finish();
    assert_eq!(layouts.layouts, vec![page(0, 0, vec![])]);
}

#[test]
fn box_wider_than_only_space_fails() {
    let mut stack = layouter(vec![area(100, 100)], default_axes(), false);
    assert_eq!(stack.add(content(101, 10)), Err(LayoutError::NoRoom));
}

#[test]
fn box_as_large_as_the_space_fits() {
    let mut stack = layouter(vec![area(100, 100)], default_axes(), false);
    assert_eq!(stack.add(content(100, 100)), Ok(()));
    assert_eq!(stack.finish().layouts, vec![page(100, 100, vec![placed(0, 0, content(100, 100))])]);
}

#[test]
fn finish_without_boxes_emits_one_empty_layout() {
    let stack = layouter(vec![area(100, 100), area(80, 80)], default_axes(), false);
    let layouts = stack.finish();
    assert_eq!(layouts.count(), 1);
    assert!(!layouts.is_empty());
    assert_eq!(layouts.layouts[0], page(0, 0, vec![]));
}

#[test]
fn finish_without_boxes_keeps_the_padding_around_nothing() {
    let stack = layouter(vec![padded_area(100, 100, 10)], default_axes(), false);
    assert_eq!(stack.finish().layouts, vec![page(20, 20, vec![])]);
}

#[test]
fn finish_without_boxes_in_fill_mode_takes_the_area() {
    let stack = layouter(vec![padded_area(100, 90, 10)], default_axes(), true);
    assert_eq!(stack.finish().layouts, vec![page(100, 90, vec![])]);
}

#[test]
fn compact_layout_is_used_extent_plus_padding() {
    let mut stack = layouter(vec![padded_area(100, 100, 10)], default_axes(), false);
    assert_eq!(stack.primary_usable(), 80);
    assert_eq!(stack.add(content(20, 30)), Ok(()));
    assert_eq!(stack.add(content(50, 10)), Ok(()));
    assert_eq!(
        stack.finish().layouts,
        vec![page(
            70,
            60,
            vec![placed(10, 10, content(20, 30)), placed(10, 40, content(50, 10))]
        )]
    );
}

#[test]
fn fill_mode_layout_takes_the_area_extent() {
    let mut stack = layouter(vec![padded_area(100, 100, 10)], default_axes(), true);
    assert_eq!(stack.add(content(20, 30)), Ok(()));
    assert_eq!(stack.finish().layouts, vec![page(100, 100, vec![placed(10, 10, content(20, 30))])]);
}

#[test]
fn padding_larger_than_the_area_leaves_no_room() {
    let mut stack = layouter(vec![padded_area(10, 10, 8)], default_axes(), false);
    assert_eq!(stack.primary_usable(), 0);
    assert_eq!(stack.add(content(1, 1)), Err(LayoutError::NoRoom));
    assert_eq!(stack.add(content(0, 0)), Ok(()));
}

#[test]
fn nested_content_is_carried_unchanged() {
    let mut stack = layouter(vec![area(100, 100)], default_axes(), false);
    let inner = page(20, 30, vec![placed(1, 2, content(3, 4))]);
    assert_eq!(stack.add(inner), Ok(()));
    assert_eq!(
        stack.finish().layouts,
        vec![page(20, 30, vec![placed(0, 0, page(20, 30, vec![placed(1, 2, content(3, 4))]))])]
    );
}

#[test]
fn too_small_area_in_between_is_passed_over() {
    let mut stack =
        layouter(vec![area(100, 100), area(10, 10), area(100, 100)], default_axes(), false);
    assert_eq!(stack.add(content(50, 80)), Ok(()));
    assert!(!stack.space_is_last());
    assert_eq!(stack.add(content(50, 50)), Ok(()));
    assert!(stack.space_is_last());
    assert_eq!(
        stack.finish().layouts,
        vec![
            page(50, 80, vec![placed(0, 0, content(50, 80))]),
            page(0, 0, vec![]),
            page(50, 50, vec![placed(0, 0, content(50, 50))]),
        ]
    );
}

#[test]
fn last_area_is_used_again() {
    let mut stack = layouter(vec![area(100, 100)], default_axes(), false);
    assert_eq!(stack.add(content(10, 60)), Ok(()));
    assert_eq!(stack.add(content(20, 60)), Ok(()));
    assert_eq!(
        stack.finish().layouts,
        vec![
            page(10, 60, vec![placed(0, 0, content(10, 60))]),
            page(20, 60, vec![placed(0, 0, content(20, 60))]),
        ]
    );
}

#[test]
fn failed_add_keeps_what_was_finished() {
    let mut stack = layouter(vec![area(100, 100)], default_axes(), false);
    assert_eq!(stack.add(content(10, 60)), Ok(()));
    assert_eq!(stack.add(content(10, 150)), Err(LayoutError::NoRoom));
    assert!(stack.space_is_empty());
    assert_eq!(stack.add(content(10, 70)), Ok(()));
    assert_eq!(
        stack.finish().layouts,
        vec![
            page(10, 60, vec![placed(0, 0, content(10, 60))]),
            page(10, 70, vec![placed(0, 0, content(10, 70))]),
        ]
    );
}

#[test]
fn failed_add_then_finish_emits_only_what_was_finished() {
    let mut stack = layouter(vec![area(100, 100)], default_axes(), false);
    assert_eq!(stack.add(content(10, 60)), Ok(()));
    assert_eq!(stack.add(content(10, 150)), Err(LayoutError::NoRoom));
    assert_eq!(stack.finish().layouts, vec![page(10, 60, vec![placed(0, 0, content(10, 60))])]);
}

#[test]
fn refused_box_after_overflow_leaves_no_empty_layout() {
    let mut stack = layouter(vec![area(100, 100), area(100, 100)], default_axes(), false);
    assert_eq!(stack.add(content(30, 40)), Ok(()));
    assert_eq!(stack.add(content(50, 150)), Err(LayoutError::NoRoom));
    assert!(stack.space_is_empty());
    assert!(stack.space_is_last());
    assert_eq!(stack.finish().layouts, vec![page(30, 40, vec![placed(0, 0, content(30, 40))])]);
}

#[test]
fn space_opened_by_overflow_is_dropped_when_it_stays_empty() {
    let mut stack = layouter(vec![area(100, 100), area(100, 10)], default_axes(), false);
    assert_eq!(stack.add(content(30, 40)), Ok(()));
    assert_eq!(stack.add(content(50, 70)), Err(LayoutError::NoRoom));
    assert_eq!(stack.finish().layouts, vec![page(30, 40, vec![placed(0, 0, content(30, 40))])]);
}

#[test]
fn add_multiple_adds_in_order() {
    let mut stack = layouter(vec![area(100, 100)], default_axes(), false);
    let boxes = MultiLayout { layouts: vec![content(10, 20), content(30, 30), content(20, 60)] };
    assert_eq!(stack.add_multiple(boxes), Ok(()));
    assert_eq!(
        stack.finish().layouts,
        vec![
            page(30, 50, vec![placed(0, 0, content(10, 20)), placed(0, 20, content(30, 30))]),
            page(20, 60, vec![placed(0, 0, content(20, 60))]),
        ]
    );
}

#[test]
fn add_multiple_stops_at_the_first_failure() {
    let mut stack = layouter(vec![area(100, 100)], default_axes(), false);
    let boxes = MultiLayout { layouts: vec![content(10, 20), content(10, 150), content(10, 30)] };
    assert_eq!(stack.add_multiple(boxes), Err(LayoutError::NoRoom));
    assert_eq!(stack.finish().layouts, vec![page(10, 20, vec![placed(0, 0, content(10, 20))])]);
}

#[test]
fn add_multiple_of_nothing_changes_nothing() {
    let mut stack = layouter(vec![area(100, 100)], default_axes(), false);
    let mut boxes = MultiLayout::new();
    assert!(boxes.is_empty());
    assert_eq!(stack.add_multiple(MultiLayout::new()), Ok(()));
    boxes.add(content(1, 1));
    assert_eq!(boxes.count(), 1);
    assert!(stack.space_is_empty());
    assert_eq!(stack.finish().layouts, vec![page(0, 0, vec![])]);
}

#[test]
fn finish_space_emits_even_an_empty_space() {
    let mut stack = layouter(vec![area(100, 100), area(50, 50)], default_axes(), false);
    stack.finish_space(false);
    assert!(stack.space_is_empty());
    assert!(stack.space_is_last());
    assert_eq!(stack.primary_usable(), 50);
    assert_eq!(stack.finish().layouts, vec![page(0, 0, vec![])]);
}

#[test]
fn hard_space_is_emitted_when_empty() {
    let mut stack = layouter(vec![area(100, 100), area(50, 50)], default_axes(), false);
    assert_eq!(stack.add(content(10, 10)), Ok(()));
    stack.finish_space(true);
    assert_eq!(
        stack.finish().layouts,
        vec![page(10, 10, vec![placed(0, 0, content(10, 10))]), page(0, 0, vec![])]
    );
}

#[test]
fn space_with_only_empty_boxes_counts_as_empty() {
    let mut stack = layouter(vec![area(100, 100)], default_axes(), false);
    stack.finish_space(false);
    assert_eq!(stack.add(content(0, 0)), Ok(()));
    assert!(stack.space_is_empty());
    assert_eq!(stack.finish().layouts, vec![page(0, 0, vec![])]);
}

#[test]
fn primary_center_alignment_centers_the_box() {
    let axes = axes_of(Axis::LeftToRight, Alignment::Center, Axis::TopToBottom, Alignment::Origin);
    let mut stack = layouter(vec![area(100, 100)], axes, false);
    assert_eq!(stack.add(content(20, 30)), Ok(()));
    assert_eq!(stack.add(content(31, 10)), Ok(()));
    assert_eq!(
        stack.finish().layouts,
        vec![page(31, 40, vec![placed(40, 0, content(20, 30)), placed(35, 30, content(31, 10))])]
    );
}

#[test]
fn primary_end_alignment_moves_the_box_to_the_far_side() {
    let axes = axes_of(Axis::LeftToRight, Alignment::End, Axis::TopToBottom, Alignment::Origin);
    let mut stack = layouter(vec![padded_area(120, 120, 10)], axes, false);
    assert_eq!(stack.add(content(20, 30)), Ok(()));
    assert_eq!(stack.finish().layouts, vec![page(40, 50, vec![placed(90, 10, content(20, 30))])]);
}

#[test]
fn right_to_left_origin_is_the_far_side() {
    let axes = axes_of(Axis::RightToLeft, Alignment::Origin, Axis::TopToBottom, Alignment::Origin);
    let mut stack = layouter(vec![area(100, 100)], axes, false);
    assert_eq!(stack.add(content(20, 30)), Ok(()));
    assert_eq!(stack.finish().layouts, vec![page(20, 30, vec![placed(80, 0, content(20, 30))])]);
}

#[test]
fn right_to_left_end_is_the_near_side() {
    let axes = axes_of(Axis::RightToLeft, Alignment::End, Axis::TopToBottom, Alignment::Origin);
    let mut stack = layouter(vec![area(100, 100)], axes, false);
    assert_eq!(stack.add(content(20, 30)), Ok(()));
    assert_eq!(stack.finish().layouts, vec![page(20, 30, vec![placed(0, 0, content(20, 30))])]);
}

#[test]
fn secondary_end_alignment_moves_the_stack_to_the_end() {
    let axes = axes_of(Axis::LeftToRight, Alignment::Origin, Axis::TopToBottom, Alignment::End);
    let mut stack = layouter(vec![area(100, 100)], axes, false);
    assert_eq!(stack.add(content(20, 30)), Ok(()));
    assert_eq!(stack.add(content(20, 20)), Ok(()));
    assert_eq!(
        stack.finish().layouts,
        vec![page(20, 50, vec![placed(0, 50, content(20, 30)), placed(0, 80, content(20, 20))])]
    );
}

#[test]
fn secondary_center_alignment_centers_the_stack() {
    let axes = axes_of(Axis::LeftToRight, Alignment::Origin, Axis::TopToBottom, Alignment::Center);
    let mut stack = layouter(vec![area(100, 100)], axes, false);
    assert_eq!(stack.add(content(20, 30)), Ok(()));
    assert_eq!(stack.add(content(20, 20)), Ok(()));
    assert_eq!(
        stack.finish().layouts,
        vec![page(20, 50, vec![placed(0, 25, content(20, 30)), placed(0, 55, content(20, 20))])]
    );
}

#[test]
fn bottom_to_top_offsets_count_downwards() {
    let axes = axes_of(Axis::LeftToRight, Alignment::Origin, Axis::BottomToTop, Alignment::Origin);
    let mut stack = layouter(vec![area(100, 100)], axes, false);
    assert_eq!(stack.add(content(20, 30)), Ok(()));
    assert_eq!(stack.add(content(20, 20)), Ok(()));
    assert_eq!(
        stack.finish().layouts,
        vec![page(20, 50, vec![placed(0, 50, content(20, 30)), placed(0, 20, content(20, 20))])]
    );
}

#[test]
fn bottom_to_top_with_end_alignment_reaches_before_the_origin() {
    let axes = axes_of(Axis::LeftToRight, Alignment::Origin, Axis::BottomToTop, Alignment::End);
    let mut stack = layouter(vec![area(100, 100)], axes, false);
    assert_eq!(stack.add(content(20, 30)), Ok(()));
    assert_eq!(stack.add(content(20, 20)), Ok(()));
    assert_eq!(
        stack.finish().layouts,
        vec![page(20, 50, vec![placed(0, 0, content(20, 30)), placed(0, -30, content(20, 20))])]
    );
}

#[test]
fn vertical_primary_axis_stacks_sideways() {
    let axes = axes_of(Axis::TopToBottom, Alignment::Origin, Axis::LeftToRight, Alignment::Origin);
    let mut stack = layouter(vec![area(100, 50)], axes, false);
    assert_eq!(stack.primary_usable(), 50);
    assert_eq!(stack.add(content(30, 20)), Ok(()));
    assert_eq!(stack.add(content(40, 10)), Ok(()));
    assert_eq!(stack.remaining().to_vec()[0], area(30, 50));
    assert_eq!(
        stack.finish().layouts,
        vec![page(70, 20, vec![placed(0, 0, content(30, 20)), placed(30, 0, content(40, 10))])]
    );
}

#[test]
fn vertical_primary_axis_overflows_along_the_width() {
    let axes = axes_of(Axis::TopToBottom, Alignment::End, Axis::LeftToRight, Alignment::Origin);
    let mut stack = layouter(vec![area(100, 50), area(100, 50)], axes, false);
    assert_eq!(stack.add(content(70, 20)), Ok(()));
    assert_eq!(stack.add(content(40, 10)), Ok(()));
    assert_eq!(
        stack.finish().layouts,
        vec![
            page(70, 20, vec![placed(0, 30, content(70, 20))]),
            page(40, 10, vec![placed(0, 40, content(40, 10))]),
        ]
    );
}

#[test]
fn primary_expansion_stretches_the_used_extent() {
    let axes = LayoutAxes::new(
        AlignedAxis::new(Axis::LeftToRight, Alignment::Origin, true),
        AlignedAxis::new(Axis::TopToBottom, Alignment::Origin, false),
    );
    let mut stack = layouter(vec![padded_area(100, 100, 5)], axes, false);
    assert_eq!(stack.add(content(20, 30)), Ok(()));
    assert_eq!(stack.finish().layouts, vec![page(100, 40, vec![placed(5, 5, content(20, 30))])]);
}

#[test]
fn secondary_expansion_stretches_the_used_extent() {
    let axes = LayoutAxes::new(
        AlignedAxis::new(Axis::LeftToRight, Alignment::Origin, false),
        AlignedAxis::new(Axis::TopToBottom, Alignment::Origin, true),
    );
    let mut stack = layouter(vec![padded_area(100, 100, 5)], axes, false);
    assert_eq!(stack.add(content(20, 30)), Ok(()));
    assert_eq!(stack.finish().layouts, vec![page(30, 100, vec![placed(5, 5, content(20, 30))])]);
}

#[test]
fn expansion_fills_an_empty_first_space() {
    let axes = LayoutAxes::new(
        AlignedAxis::new(Axis::LeftToRight, Alignment::Origin, true),
        AlignedAxis::new(Axis::TopToBottom, Alignment::Origin, true),
    );
    let stack = layouter(vec![padded_area(100, 80, 5)], axes, false);
    assert_eq!(stack.finish().layouts, vec![page(100, 80, vec![])]);
}

#[test]
fn try_new_refuses_a_context_without_areas() {
    let ctx =
        StackContext { spaces: LayoutSpaces::from_vec(vec![]), axes: default_axes(), expand: true };
    match StackLayouter::try_new(ctx) {
        Ok(_) => panic!("a layouter was made without any area"),
        Err(back) => {
            assert_eq!(back.spaces.len(), 0);
            assert_eq!(back.axes, default_axes());
            assert!(back.expand);
        }
    }
}

#[test]
fn try_new_makes_a_layouter() {
    let ctx = StackContext {
        spaces: LayoutSpaces::from_vec(vec![area(100, 100)]),
        axes: default_axes(),
        expand: false,
    };
    let mut stack = StackLayouter::try_new(ctx).unwrap();
    assert_eq!(stack.primary_usable(), 100);
    stack.add_space(5, SpaceKind::Hard);
    assert_eq!(stack.add(content(30, 40)), Ok(()));
    assert_eq!(stack.finish().layouts, vec![page(30, 45, vec![placed(0, 5, content(30, 40))])]);
}

#[test]
fn layout_clone_copies_what_is_placed_inside() {
    let inner = page(20, 30, vec![placed(1, -2, page(3, 4, vec![placed(5, 6, content(7, 8))]))]);
    let copy = inner.clone();
    assert_eq!(copy, inner);
    assert_eq!(copy.actions[0].clone(), placed(1, -2, page(3, 4, vec![placed(5, 6, content(7, 8))])));
    let pages = MultiLayout { layouts: vec![inner, content(1, 1)] };
    assert_eq!(pages.clone(), pages);
}

#[test]
fn context_clone_holds_the_same_areas() {
    let ctx = StackContext {
        spaces: LayoutSpaces::from_vec(vec![area(100, 100), padded_area(50, 40, 5)]),
        axes: default_axes(),
        expand: true,
    };
    let copy = ctx.clone();
    assert_eq!(copy.spaces.to_vec(), vec![area(100, 100), padded_area(50, 40, 5)]);
    assert_eq!(copy.spaces.to_vec(), ctx.spaces.to_vec());
    assert_eq!(copy.axes, ctx.axes);
    assert!(copy.expand);
}

#[test]
fn layouter_clone_goes_its_own_way() {
    let mut stack = layouter(vec![area(100, 100)], default_axes(), false);
    assert_eq!(stack.add(content(10, 20)), Ok(()));
    let mut copy = stack.clone();
    assert_eq!(copy.add(content(30, 30)), Ok(()));
    assert_eq!(stack.finish().layouts, vec![page(10, 20, vec![placed(0, 0, content(10, 20))])]);
    assert_eq!(
        copy.finish().layouts,
        vec![page(30, 50, vec![placed(0, 0, content(10, 20)), placed(0, 20, content(30, 30))])]
    );
}

#[test]
fn every_layout_of_a_run_stays_within_the_area() {
    let mut stack = layouter(
        vec![padded_area(100, 80, 10), padded_area(100, 80, 10)],
        axes_of(Axis::LeftToRight, Alignment::End, Axis::BottomToTop, Alignment::Center),
        false,
    );
    assert_eq!(stack.add(content(70, 50)), Ok(()));
    stack.add_space(500, SpaceKind::Hard);
    stack.set_axes(axes_of(Axis::TopToBottom, Alignment::Origin, Axis::RightToLeft, Alignment::End));
    assert_eq!(stack.add(content(80, 60)), Ok(()));
    stack.add_space(7, SpaceKind::Soft);
    stack.finish_space(true);
    assert_eq!(stack.add(content(10, 10)), Ok(()));
    assert_eq!(stack.add(content(200, 10)), Err(LayoutError::NoRoom));
    let layouts = stack.finish().layouts;
    assert_eq!(layouts.len(), 3);
    for layout in &layouts {
        assert!(Size2D::new(100, 80).fits(layout.dimensions));
    }
    assert_eq!(layouts[0].dimensions, Size2D::new(90, 80));
    assert_eq!(layouts[1].dimensions, Size2D::new(100, 80));
    assert_eq!(layouts[2].dimensions, Size2D::new(30, 30));
}
