//! General facts about the model of the stack layouter.
use crate::axes::LayoutAxes;
use crate::layout::{Layout, LayoutAction, LayoutView, SpaceKind};
use crate::model::{SpaceState, StackState, Step, SubspaceState};
use crate::size::{clamped_sub, Size, Size2D};
use crate::spaces::{LayoutSpace, MAX_SPACES};
use vstd::prelude::*;

verus! {

/// Whether a finished layout respects the area that it was made for: it is as
/// large as the area where layouts take the full extent, and otherwise as
/// large as some extent that fits into the usable part of the area, with the
/// padding of the area around it.
pub open spec fn fits_area(layout: LayoutView, area: LayoutSpace, expand: bool) -> bool {
    if expand {
        layout.dimensions == area.dimensions
    } else {
        exists|used: Size2D| #[trigger]
            area.spec_usable().spec_fits(used) && layout.dimensions == used.spec_padded(
                area.padding,
            )
    }
}

/// A layout that respects an area whose padding leaves room inside it is no
/// larger than the area.
pub proof fn lemma_fitting_layout_is_within_area(
    layout: LayoutView,
    area: LayoutSpace,
    expand: bool,
)
    requires
        fits_area(layout, area, expand),
        area.padding.left + area.padding.right <= area.dimensions.x,
        area.padding.top + area.padding.bottom <= area.dimensions.y,
    ensures
        area.dimensions.spec_fits(layout.dimensions),
{
}

/// Whether a finished layout respects one of `areas`.
pub open spec fn fits_some_area(layout: LayoutView, areas: Seq<LayoutSpace>, expand: bool) -> bool {
    exists|k: int| 0 <= k < areas.len() && fits_area(layout, #[trigger] areas[k], expand)
}

/// Whether `after` begins with the layouts of `before`, in their order, and
/// holds behind them only layouts that respect one of `areas`.
pub open spec fn extends_within(
    before: Seq<LayoutView>,
    after: Seq<LayoutView>,
    areas: Seq<LayoutSpace>,
    expand: bool,
) -> bool {
    &&& before.len() <= after.len()
    &&& forall|i: int| 0 <= i < before.len() ==> after[i] == before[i]
    &&& forall|i: int|
        before.len() <= i < after.len() ==> fits_some_area(#[trigger] after[i], areas, expand)
}

/// Whether the current space is empty and its subspace spans the usable part
/// of the area at `index`, as it does when a space has just been started.
pub open spec fn is_fresh(s: StackState, index: int) -> bool {
    &&& s.space.index == index
    &&& s.space.actions.len() == 0
    &&& s.space.combined == Size2D::spec_zero()
    &&& s.sub == SubspaceState::new(
        s.spaces[index].spec_start(),
        s.spaces[index].spec_usable(),
        s.axes,
    )
}

/// Adding spacing keeps a state well-formed and touches neither the areas,
/// the axes, the output nor the usable extent of the subspace.
pub proof fn lemma_add_space_keeps(s: StackState, amount: Size, kind: SpaceKind)
    requires
        s.wf(),
    ensures
        s.add_space(amount, kind).wf(),
        s.add_space(amount, kind).spaces == s.spaces,
        s.add_space(amount, kind).axes == s.axes,
        s.add_space(amount, kind).expand == s.expand,
        s.add_space(amount, kind).layouts == s.layouts,
        s.add_space(amount, kind).space == s.space,
        s.add_space(amount, kind).sub.usable == s.sub.usable,
{
}

/// Hard spacing grows the used extent along the secondary axis by its amount
/// where the subspace has that much room left, and up to the usable extent,
/// never beyond it, where it has not.
pub proof fn lemma_hard_spacing_clamps(s: StackState, amount: Size)
    requires
        s.wf(),
    ensures
        ({
            let t = s.add_space(amount, SpaceKind::Hard);
            let room = s.sub.usable.y - s.sub.used.y;
            &&& t.sub.used.x == s.sub.used.x
            &&& t.sub.used.y <= s.sub.usable.y
            &&& amount <= room ==> t.sub.used.y == s.sub.used.y + amount
            &&& amount >= room ==> t.sub.used.y == s.sub.usable.y
            &&& t.sub.spacing is Forbidden
        }),
{
}

/// Soft spacing that is followed by the end of the layouting changes nothing
/// of what the layouter yields.
pub proof fn lemma_trailing_soft_spacing_collapses(s: StackState, amount: Size)
    ensures
        s.add_space(amount, SpaceKind::Soft).finish() == s.finish(),
{
    lemma_soft_spacing_ends_with_space(s, amount, false);
}

/// Soft spacing that is followed by the end of its space leaves no trace: the
/// layout of the space and the space that follows are the same as without it.
pub proof fn lemma_soft_spacing_ends_with_space(s: StackState, amount: Size, hard: bool)
    ensures
        s.add_space(amount, SpaceKind::Soft).finish_space(hard) == s.finish_space(hard),
{
    let t = s.add_space(amount, SpaceKind::Soft);
    assert(t.finish_subspace().space.actions =~= s.finish_subspace().space.actions);
}

/// Where a box still fits into the subspace behind soft spacing, adding the
/// spacing and then the box grows the used extent along the secondary axis by
/// the spacing, as far as there is room for it, and by the extent of the box.
/// This holds where spacing is allowed; where it is forbidden the spacing is
/// dropped, so it holds only of spacing of which nothing would be taken.
pub proof fn lemma_soft_spacing_before_box(s: StackState, amount: Size, layout: Layout)
    requires
        s.wf(),
        s.sub.spacing is Forbidden ==> amount == 0 || s.sub.used.y == s.sub.usable.y,
        s.add_space(amount, SpaceKind::Hard).has_room(s.axes.spec_generalize(layout.dimensions)),
    ensures
        ({
            let t = s.add_space(amount, SpaceKind::Soft);
            let size = s.axes.spec_generalize(layout.dimensions);
            let room = s.sub.usable.y - s.sub.used.y;
            let taken = if amount <= room {
                amount as int
            } else {
                room
            };
            &&& t.add_ok(layout)
            &&& t.add(layout).sub.used.y == s.sub.used.y + taken + size.y
            &&& t.add(layout).sub.boxes == s.sub.boxes.push(
                t.add(layout).sub.boxes.last(),
            )
            &&& t.add(layout).sub.boxes.last().offset == s.sub.used.y + taken
            &&& t.add(layout).sub.boxes.last().layout == layout
        }),
{
    let t = s.add_space(amount, SpaceKind::Soft);
    let m = t.materialize();
    let size = s.axes.spec_generalize(layout.dimensions);
    if s.sub.spacing is Forbidden {
        assert(m == s);
        assert(m.sub.used == s.add_space(amount, SpaceKind::Hard).sub.used);
    } else {
        assert(m == s.add_space(amount, SpaceKind::Hard));
    }
    assert(m.has_room(size));
}

/// Finishing the subspace keeps a state well-formed: what the space has used
/// still fits into the usable part of its area.
pub proof fn lemma_finish_subspace_keeps(s: StackState)
    requires
        s.wf(),
    ensures
        s.finish_subspace().wf(),
        s.finish_subspace().spaces == s.spaces,
        s.finish_subspace().axes == s.axes,
        s.finish_subspace().expand == s.expand,
        s.finish_subspace().layouts == s.layouts,
        s.finish_subspace().space.index == s.space.index,
        s.area().spec_usable().spec_fits(s.finish_subspace().space.combined),
{
}

/// Finishing a space appends exactly one layout, which respects the area of
/// the space, and leaves an empty space on the next area.
pub proof fn lemma_finish_space_emits(s: StackState, hard: bool)
    requires
        s.wf(),
    ensures
        s.finish_space(hard).wf(),
        s.finish_space(hard).spaces == s.spaces,
        s.finish_space(hard).axes == s.axes,
        s.finish_space(hard).expand == s.expand,
        s.finish_space(hard).layouts == s.layouts.push(s.finish_subspace().finished_layout()),
        fits_area(s.finish_subspace().finished_layout(), s.area(), s.expand),
        is_fresh(s.finish_space(hard), s.next_space()),
        s.finish_space(hard).space.hard == hard,
        s.finish_space(hard).space_is_empty(),
{
    lemma_finish_subspace_keeps(s);
    let done = s.finish_subspace();
    assert(s.area().spec_usable().spec_fits(done.space.combined));
}

/// The search for room keeps a state well-formed and keeps areas and axes. It
/// only appends layouts, each of which respects one of the areas, and it ends
/// with room for the box or with the layouter stuck.
pub proof fn lemma_find_room_emits(s: StackState, size: Size2D)
    requires
        s.wf(),
    ensures
        s.find_room(size).wf(),
        s.find_room(size).spaces == s.spaces,
        s.find_room(size).axes == s.axes,
        s.find_room(size).expand == s.expand,
        extends_within(s.layouts, s.find_room(size).layouts, s.spaces, s.expand),
        s.find_room(size).has_room(size) || s.find_room(size).is_stuck(),
    decreases s.retries(),
{
    if s.has_room(size) || s.is_stuck() {
    } else {
        let next = s.finish_space(false);
        lemma_finish_space_emits(s, false);
        lemma_find_room_emits(next, size);
        let end = next.find_room(size);
        assert(next.layouts[s.layouts.len() as int] == s.finish_subspace().finished_layout());
        assert forall|i: int| s.layouts.len() <= i < end.layouts.len() implies fits_some_area(
            #[trigger] end.layouts[i],
            s.spaces,
            s.expand,
        ) by {
            if i == s.layouts.len() {
                assert(end.layouts[i] == next.layouts[i]);
                assert(fits_area(end.layouts[i], s.spaces[s.space.index], s.expand));
            }
        }
    }
}

/// Started on an empty space that spans the area at `index`, the search for
/// room ends on the first area from there on that is large enough for the
/// box, with one empty layout for each area that was passed over. It fails
/// exactly if no area from there on is large enough. No space becomes hard
/// in the search.
pub proof fn lemma_find_room_from_fresh(s: StackState, index: int, size: Size2D)
    requires
        s.wf(),
        is_fresh(s, index),
    ensures
        ({
            let end = s.find_room(size);
            &&& end.has_room(size) <==> exists|k: int|
                index <= k < s.spaces.len() && #[trigger] s.area_has_room(k, size)
            &&& index <= end.space.index < s.spaces.len()
            &&& is_fresh(end, end.space.index)
            &&& forall|k: int| index <= k < end.space.index ==> !#[trigger] s.area_has_room(k, size)
            &&& end.has_room(size) <==> s.area_has_room(end.space.index, size)
            &&& end.layouts.len() == s.layouts.len() + (end.space.index - index)
            &&& !end.has_room(size) ==> end.space.index == s.spaces.len() - 1
            &&& !s.space.hard ==> !end.space.hard
        }),
    decreases s.spaces.len() - index,
{
    assert(s.has_room(size) <==> s.area_has_room(index, size));
    assert(s.space_is_empty());
    if s.has_room(size) || s.is_stuck() {
    } else {
        let next = s.finish_space(false);
        lemma_finish_space_emits(s, false);
        lemma_find_room_from_fresh(next, index + 1, size);
        let end = next.find_room(size);
        assert forall|k: int| index <= k < end.space.index implies !#[trigger] s.area_has_room(k, size) by {
            if k > index {
                assert(!next.area_has_room(k, size));
            }
        }
        if end.has_room(size) {
            let k = choose|k: int|
                index + 1 <= k < next.spaces.len() && #[trigger] next.area_has_room(k, size);
            assert(s.area_has_room(k, size));
        }
        if exists|k: int| index <= k < s.spaces.len() && #[trigger] s.area_has_room(k, size) {
            let k = choose|k: int|
                index <= k < s.spaces.len() && #[trigger] s.area_has_room(k, size);
            assert(next.area_has_room(k, size));
        }
    }
}

/// Adding a box succeeds exactly if the search for room, started once
/// pending soft spacing has taken effect, ends with room for the box.
pub proof fn lemma_add_ok_iff_room_found(s: StackState, layout: Layout)
    requires
        s.wf(),
    ensures
        s.add_ok(layout) <==> s.settle(layout).has_room(s.axes.spec_generalize(layout.dimensions)),
{
    let m = s.materialize();
    let size = s.axes.spec_generalize(layout.dimensions);
    if m.has_room(size) || m.is_stuck() {
    } else {
        let next = m.finish_space(false);
        lemma_finish_space_emits(m, false);
        lemma_find_room_from_fresh(next, m.next_space(), size);
        if next.find_room(size).has_room(size) {
            let k = choose|k: int|
                m.next_space() <= k < next.spaces.len() && #[trigger] next.area_has_room(k, size);
            assert(s.area_has_room(k, size));
        }
        if exists|k: int|
            m.next_space() <= k < s.spaces.len() && #[trigger] s.area_has_room(k, size) {
            let k = choose|k: int|
                m.next_space() <= k < s.spaces.len() && #[trigger] s.area_has_room(k, size);
            assert(next.area_has_room(k, size));
        }
    }
}

/// A box that fits into the current subspace, once pending soft spacing has
/// taken effect, is put there: no space is finished, and the box waits at the
/// end of the used extent.
pub proof fn lemma_add_in_place(s: StackState, layout: Layout)
    requires
        s.materialize().has_room(s.axes.spec_generalize(layout.dimensions)),
    ensures
        s.add_ok(layout),
        s.add(layout) == s.materialize().place_box(layout),
        s.add(layout).layouts == s.layouts,
        s.add(layout).space == s.space,
{
}

/// A box that does not fit into the current subspace, but into a later area,
/// ends the current space and lands alone in a space, which is not hard, on
/// the first area from the next one on that is large enough, and each area
/// that was passed over has left one layout.
pub proof fn lemma_add_overflows(s: StackState, layout: Layout)
    requires
        s.wf(),
        s.add_ok(layout),
        !s.materialize().has_room(s.axes.spec_generalize(layout.dimensions)),
    ensures
        ({
            let m = s.materialize();
            let size = s.axes.spec_generalize(layout.dimensions);
            let t = s.add(layout);
            &&& m.next_space() <= t.space.index < s.spaces.len()
            &&& s.area_has_room(t.space.index, size)
            &&& forall|k: int|
                m.next_space() <= k < t.space.index ==> !#[trigger] s.area_has_room(k, size)
            &&& t.layouts.len() == s.layouts.len() + 1 + (t.space.index - m.next_space())
            &&& t.layouts[s.layouts.len() as int] == m.finish_subspace().finished_layout()
            &&& t.space == SpaceState::new(t.space.index, false)
            &&& t.sub.origin == s.spaces[t.space.index].spec_start()
            &&& t.sub.usable == s.axes.spec_generalize(s.spaces[t.space.index].spec_usable())
            &&& t.sub.boxes.len() == 1
            &&& t.sub.boxes[0].layout == layout
            &&& t.sub.boxes[0].offset == 0
            &&& t.sub.boxes[0].anchor == s.axes.primary.spec_anchor(size.x)
            &&& t.sub.used == size
            &&& t.sub.spacing is Allowed
        }),
{
    let m = s.materialize();
    let size = s.axes.spec_generalize(layout.dimensions);
    let next = m.finish_space(false);
    lemma_add_ok_iff_room_found(s, layout);
    lemma_finish_space_emits(m, false);
    lemma_find_room_from_fresh(next, m.next_space(), size);
    lemma_find_room_emits(next, size);
    let end = next.find_room(size);
    assert(end == s.settle(layout));
    assert forall|k: int| m.next_space() <= k < end.space.index implies !#[trigger] s.area_has_room(k, size) by {
        assert(!next.area_has_room(k, size));
    }
    assert(next.area_has_room(end.space.index, size));
    assert(s.add(layout).space.actions =~= Seq::empty());
}

/// Adding a box, whether it succeeds or not, keeps a state well-formed and
/// keeps areas and axes; it only appends layouts, each of which respects one
/// of the areas.
pub proof fn lemma_add_emits(s: StackState, layout: Layout)
    requires
        s.wf(),
    ensures
        s.add(layout).wf(),
        s.add(layout).spaces == s.spaces,
        s.add(layout).axes == s.axes,
        s.add(layout).expand == s.expand,
        extends_within(s.layouts, s.add(layout).layouts, s.spaces, s.expand),
{
    let m = s.materialize();
    let size = s.axes.spec_generalize(layout.dimensions);
    lemma_find_room_emits(m, size);
}

/// Adding boxes one after the other keeps a state well-formed and keeps areas
/// and axes; it only appends layouts, each of which respects one of the areas.
pub proof fn lemma_add_multiple_emits(s: StackState, layouts: Seq<Layout>)
    requires
        s.wf(),
    ensures
        s.add_multiple(layouts).wf(),
        s.add_multiple(layouts).spaces == s.spaces,
        s.add_multiple(layouts).axes == s.axes,
        s.add_multiple(layouts).expand == s.expand,
        extends_within(s.layouts, s.add_multiple(layouts).layouts, s.spaces, s.expand),
    decreases layouts.len(),
{
    if layouts.len() != 0 {
        lemma_add_emits(s, layouts[0]);
        if s.add_ok(layouts[0]) {
            let t = s.add(layouts[0]);
            lemma_add_multiple_emits(t, layouts.drop_first());
            lemma_extends_within_chains(
                s.layouts,
                t.layouts,
                t.add_multiple(layouts.drop_first()).layouts,
                s.spaces,
                s.expand,
            );
        }
    }
}

/// Appending layouts that respect the areas twice in a row is appending
/// layouts that respect the areas.
pub proof fn lemma_extends_within_chains(
    first: Seq<LayoutView>,
    second: Seq<LayoutView>,
    third: Seq<LayoutView>,
    areas: Seq<LayoutSpace>,
    expand: bool,
)
    requires
        extends_within(first, second, areas, expand),
        extends_within(second, third, areas, expand),
    ensures
        extends_within(first, third, areas, expand),
{
    assert forall|i: int| first.len() <= i < third.len() implies fits_some_area(
        #[trigger] third[i],
        areas,
        expand,
    ) by {
        if i < second.len() {
            assert(third[i] == second[i]);
        }
    }
}

/// What a layouter yields in the end are the layouts that it had finished
/// before, and behind them at most the layout of the current space, which
/// respects its area.
pub proof fn lemma_finish_emits(s: StackState)
    requires
        s.wf(),
    ensures
        extends_within(s.layouts, s.finish(), s.spaces, s.expand),
        s.finish().len() == s.layouts.len() + if s.space.hard || !s.space_is_empty() {
            1int
        } else {
            0int
        },
{
    if s.space.hard || !s.space_is_empty() {
        lemma_finish_space_emits(s, false);
        let out = s.finish();
        assert(fits_area(out[s.layouts.len() as int], s.spaces[s.space.index], s.expand));
    }
}

/// A layouter that is finished right after it was made yields exactly one
/// layout, which holds no box. Of its area only what expansion claims counts
/// as used: the usable extent along each axis that asks for expansion. So
/// unless an axis asks for expansion nothing is used, and the layout is as
/// large as the area where layouts take the full extent, and as large as the
/// padding alone otherwise.
pub proof fn lemma_new_then_finish(spaces: Seq<LayoutSpace>, axes: LayoutAxes, expand: bool)
    requires
        spaces.len() > 0,
    ensures
        ({
            let s = StackState::new(spaces, axes, expand);
            let out = s.finish();
            let usable = axes.spec_generalize(spaces[0].spec_usable());
            let claimed = Size2D {
                x: if axes.primary.expand {
                    usable.x
                } else {
                    0
                },
                y: if axes.secondary.expand {
                    usable.y
                } else {
                    0
                },
            };
            &&& out.len() == 1
            &&& out[0].actions == Seq::<LayoutAction>::empty()
            &&& out[0] == s.finish_subspace().finished_layout()
            &&& s.finish_subspace().space.combined == axes.spec_specialize(claimed)
            &&& !axes.primary.expand && !axes.secondary.expand ==> {
                &&& s.finish_subspace().space.combined == Size2D::spec_zero()
                &&& out[0].dimensions == if expand {
                    spaces[0].dimensions
                } else {
                    Size2D::spec_zero().spec_padded(spaces[0].padding)
                }
            }
        }),
{
    let s = StackState::new(spaces, axes, expand);
    assert(s.finish_subspace().space.actions =~= Seq::<LayoutAction>::empty());
}

/// Setting the axes keeps a state well-formed, keeps the areas and the output,
/// and leaves the current space on its area.
pub proof fn lemma_set_axes_keeps(s: StackState, axes: LayoutAxes)
    requires
        s.wf(),
    ensures
        s.set_axes(axes).wf(),
        s.set_axes(axes).axes == axes,
        s.set_axes(axes).spaces == s.spaces,
        s.set_axes(axes).expand == s.expand,
        s.set_axes(axes).layouts == s.layouts,
        s.set_axes(axes).space.index == s.space.index,
{
}

/// Setting the axes keeps what the subspace has left: the remaining usable
/// extent, in specialized coordinates, is the same before and after, and the
/// new subspace, of which nothing is used, spans exactly that extent. So the
/// amounts that are left are the same numbers under the old and the new axes,
/// along whichever axis each of them now lies.
///
/// This does not hold where new axes end a subspace whose secondary axis asks
/// for expansion while something is left along it: ending the subspace then
/// uses up what was left.
pub proof fn lemma_set_axes_keeps_remaining(s: StackState, axes: LayoutAxes)
    requires
        s.wf(),
        axes == s.axes || !s.axes.secondary.expand || s.sub.used.y
            + s.sub.spacing.spec_soft_or_zero() >= s.sub.usable.y,
    ensures
        s.set_axes(axes).remaining_subspace().1 == s.remaining_subspace().1,
        s.axes.spec_generalize(s.set_axes(axes).remaining_subspace().1).y == clamped_sub(
            s.sub.usable.y as int,
            s.sub.used.y + s.sub.spacing.spec_soft_or_zero(),
        ),
        axes != s.axes ==> {
            &&& s.set_axes(axes).sub.used == Size2D::spec_zero()
            &&& s.set_axes(axes).sub.usable == axes.spec_generalize(s.remaining_subspace().1)
        },
        axes != s.axes && !s.axes.secondary.expand ==> s.set_axes(axes).sub.origin
            == s.remaining_subspace().0,
{
}

/// Changing the list of areas, where the list can take the new ones, keeps a
/// state well-formed and keeps the axes and the output.
pub proof fn lemma_set_spaces_keeps(s: StackState, spaces: Seq<LayoutSpace>, replace_empty: bool)
    requires
        s.wf(),
        s.accepts_spaces(spaces.len(), replace_empty),
    ensures
        s.set_spaces(spaces, replace_empty).wf(),
        s.set_spaces(spaces, replace_empty).axes == s.axes,
        s.set_spaces(spaces, replace_empty).expand == s.expand,
        s.set_spaces(spaces, replace_empty).layouts == s.layouts,
        s.set_spaces(spaces, replace_empty).space.hard == s.space.hard,
{
}

/// A box that is given up leaves no space behind that would show: either the
/// layouter was stuck from the start and nothing but pending soft spacing has
/// changed, or the search has ended on an empty space that is not hard, so
/// that what the layouter yields in the end are the layouts finished so far.
pub proof fn lemma_refused_add_leaves_nothing(s: StackState, layout: Layout)
    requires
        s.wf(),
        !s.add_ok(layout),
    ensures
        ({
            let ready = s.materialize();
            let t = s.add(layout);
            &&& ready.is_stuck() ==> t == ready
            &&& !ready.is_stuck() ==> {
                &&& t.space_is_empty()
                &&& !t.space.hard
                &&& t.space.index == s.spaces.len() - 1
                &&& t.layouts.len() > s.layouts.len()
                &&& t.layouts[s.layouts.len() as int] == ready.finish_subspace().finished_layout()
                &&& t.finish() == t.layouts
            }
        }),
{
    let m = s.materialize();
    let size = s.axes.spec_generalize(layout.dimensions);
    lemma_add_ok_iff_room_found(s, layout);
    if !m.is_stuck() {
        let next = m.finish_space(false);
        lemma_finish_space_emits(m, false);
        lemma_find_room_from_fresh(next, m.next_space(), size);
        lemma_find_room_emits(next, size);
    }
}

/// As many areas are left as the list holds from the current one on: what
/// the current subspace has left and each area behind it. On the last area
/// that is one.
pub proof fn lemma_remaining_counts(s: StackState)
    requires
        s.wf(),
    ensures
        s.remaining().len() == s.spaces.len() - s.space.index,
        s.space_is_last() <==> s.remaining().len() == 1,
        forall|k: int|
            1 <= k < s.remaining().len() ==> #[trigger] s.remaining()[k] == s.spaces[s.space.index
                + k].spec_usable_space(),
{
}

/// The state of a new layouter is well-formed if there is at least one area
/// and the list of areas is no longer than it may be.
pub proof fn lemma_new_is_well_formed(spaces: Seq<LayoutSpace>, axes: LayoutAxes, expand: bool)
    requires
        0 < spaces.len() <= MAX_SPACES,
    ensures
        StackState::new(spaces, axes, expand).wf(),
        StackState::new(spaces, axes, expand).layouts.len() == 0,
        StackState::new(spaces, axes, expand).spaces == spaces,
        StackState::new(spaces, axes, expand).expand == expand,
{
}

/// Any one operation that leaves the list of areas as it is keeps a state
/// well-formed and only appends layouts, each of which respects one of the
/// areas.
pub proof fn lemma_step_emits(s: StackState, step: Step)
    requires
        s.wf(),
    ensures
        s.step(step).wf(),
        s.step(step).spaces == s.spaces,
        s.step(step).expand == s.expand,
        extends_within(s.layouts, s.step(step).layouts, s.spaces, s.expand),
{
    match step {
        Step::Add(layout) => {
            lemma_add_emits(s, layout);
        },
        Step::AddMultiple(layouts) => {
            lemma_add_multiple_emits(s, layouts);
        },
        Step::AddSpace(amount, kind) => {
            lemma_add_space_keeps(s, amount, kind);
        },
        Step::SetAxes(axes) => {
            lemma_set_axes_keeps(s, axes);
        },
        Step::FinishSpace(hard) => {
            lemma_finish_space_emits(s, hard);
            let t = s.finish_space(hard);
            assert(fits_area(t.layouts[s.layouts.len() as int], s.spaces[s.space.index], s.expand));
        },
    }
}

/// Any run of operations that leave the list of areas as it is keeps a state
/// well-formed and only appends layouts, each of which respects one of the
/// areas.
pub proof fn lemma_run_emits(s: StackState, steps: Seq<Step>)
    requires
        s.wf(),
    ensures
        s.run(steps).wf(),
        s.run(steps).spaces == s.spaces,
        s.run(steps).expand == s.expand,
        extends_within(s.layouts, s.run(steps).layouts, s.spaces, s.expand),
    decreases steps.len(),
{
    if steps.len() != 0 {
        let t = s.step(steps[0]);
        lemma_step_emits(s, steps[0]);
        lemma_run_emits(t, steps.drop_first());
        lemma_extends_within_chains(
            s.layouts,
            t.layouts,
            t.run(steps.drop_first()).layouts,
            s.spaces,
            s.expand,
        );
    }
}

/// Whatever is done with a layouter between making and finishing it, short
/// of changing its list of areas: every layout that it yields respects one of
/// its areas.
pub proof fn lemma_output_respects_areas(
    spaces: Seq<LayoutSpace>,
    axes: LayoutAxes,
    expand: bool,
    steps: Seq<Step>,
)
    requires
        0 < spaces.len() <= MAX_SPACES,
    ensures
        forall|i: int|
            0 <= i < StackState::new(spaces, axes, expand).run(steps).finish().len()
                ==> fits_some_area(
                #[trigger] StackState::new(spaces, axes, expand).run(steps).finish()[i],
                spaces,
                expand,
            ),
{
    let s = StackState::new(spaces, axes, expand);
    lemma_new_is_well_formed(spaces, axes, expand);
    lemma_run_emits(s, steps);
    lemma_finish_emits(s.run(steps));
    lemma_extends_within_chains(
        s.layouts,
        s.run(steps).layouts,
        s.run(steps).finish(),
        spaces,
        expand,
    );
}

/// Where all areas of a layouter are the same area, whose padding leaves
/// room inside it, and the list of areas is never changed: every layout that
/// the layouter yields is as large as the area where layouts take the full
/// extent, and no larger than the area otherwise.
pub proof fn lemma_output_is_within_uniform_areas(
    spaces: Seq<LayoutSpace>,
    axes: LayoutAxes,
    expand: bool,
    steps: Seq<Step>,
    area: LayoutSpace,
)
    requires
        0 < spaces.len() <= MAX_SPACES,
        forall|k: int| 0 <= k < spaces.len() ==> spaces[k] == area,
        area.padding.left + area.padding.right <= area.dimensions.x,
        area.padding.top + area.padding.bottom <= area.dimensions.y,
    ensures
        forall|i: int|
            0 <= i < StackState::new(spaces, axes, expand).run(steps).finish().len() ==> {
                let layout = #[trigger] StackState::new(spaces, axes, expand).run(steps).finish()[i];
                if expand {
                    layout.dimensions == area.dimensions
                } else {
                    area.dimensions.spec_fits(layout.dimensions)
                }
            },
{
    let out = StackState::new(spaces, axes, expand).run(steps).finish();
    lemma_output_respects_areas(spaces, axes, expand, steps);
    assert forall|i: int| 0 <= i < out.len() implies if expand {
        (#[trigger] out[i]).dimensions == area.dimensions
    } else {
        area.dimensions.spec_fits(out[i].dimensions)
    } by {
        let k = choose|k: int| 0 <= k < spaces.len() && fits_area(out[i], #[trigger] spaces[k], expand);
        lemma_fitting_layout_is_within_area(out[i], area, expand);
    }
}

} // verus!
