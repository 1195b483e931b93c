//! The stack layouter: boxes are stacked along the secondary axis, aligned
//! along the primary axis, and packed into a list of areas.
use crate::axes::LayoutAxes;
use crate::layout::{Layout, LayoutAction, LayoutError, LayoutResult, MultiLayout, SpaceKind};
use crate::lemmas::{
    extends_within, fits_area, lemma_add_emits, lemma_add_multiple_emits,
    lemma_add_ok_iff_room_found, lemma_finish_emits, lemma_finish_space_emits,
    lemma_remaining_counts, lemma_set_axes_keeps_remaining,
};
use crate::model::{BoxRecord, LastSpacing, SpaceState, StackState, SubspaceState};
use crate::size::{max, Point, Size, Size2D, SizeBox};
use crate::spaces::{
    spaces_extend, spaces_get, spaces_len, spaces_new, spaces_push, spaces_truncate, LayoutSpace,
    LayoutSpaces, MAX_SPACES,
};
use vstd::prelude::*;

verus! {

/// What a stack layouter is made from.
#[derive(Debug, Clone)]
pub struct StackContext {
    /// The areas to lay out into, in the order in which they are filled. There
    /// has to be at least one.
    pub spaces: LayoutSpaces,
    /// The axes along which boxes are laid out at first.
    pub axes: LayoutAxes,
    /// Whether a finished layout takes the full extent of its area, rather
    /// than the extent that was used.
    pub expand: bool,
}

/// The stack layouter arranges boxes stacked onto each other.
///
/// The boxes are laid out in the direction of the secondary layouting axis and
/// are aligned along both axes.
#[derive(Debug, Clone)]
pub struct StackLayouter {
    /// The context of the layouter.
    ctx: StackContext,
    /// The output layouts.
    layouts: MultiLayout,
    /// The space that is currently filled.
    space: Space,
    /// The currently active subspace.
    sub: Subspace,
}

#[derive(Debug, Clone)]
struct Space {
    /// The index of this space in the list of spaces.
    index: usize,
    /// Whether to add the layout for this space even if it would be empty.
    hard: bool,
    /// The layouting actions accumulated from the subspaces.
    actions: Vec<LayoutAction>,
    /// The used extent of this space, from the start of its usable part to
    /// the farthest used point (specialized).
    combined_dimensions: Size2D,
}

#[derive(Debug, Clone)]
struct Subspace {
    /// The beginning of this subspace in the parent space (specialized).
    origin: Size2D,
    /// The total usable extent of this subspace (generalized).
    usable: Size2D,
    /// The used extent of this subspace (generalized), with
    /// - `x` being the maximum of the primary extent of all boxes,
    /// - `y` being the total extent of all boxes and spacing in the secondary
    ///   direction.
    dimensions: Size2D,
    /// The boxes accumulated so far.
    boxes: Vec<BoxRecord>,
    /// The last added spacing if the last was spacing.
    spacing: LastSpacing,
}

impl Space {
    /// The space with its actions as a sequence.
    spec fn model(&self) -> SpaceState {
        SpaceState {
            index: self.index as int,
            hard: self.hard,
            actions: self.actions@,
            combined: self.combined_dimensions,
        }
    }

    /// An empty space on the area at `index`.
    fn new(index: usize, hard: bool) -> (r: Space)
        ensures
            r.model() == SpaceState::new(index as int, hard),
    {
        Space { index, hard, actions: Vec::new(), combined_dimensions: Size2D::zero() }
    }
}

impl Subspace {
    /// The subspace with its boxes as a sequence.
    spec fn model(&self) -> SubspaceState {
        SubspaceState {
            origin: self.origin,
            usable: self.usable,
            used: self.dimensions,
            boxes: self.boxes@,
            spacing: self.spacing,
        }
    }

    /// An empty subspace that begins at `origin` and may use `usable`
    /// (specialized) under `axes`.
    fn new(origin: Size2D, usable: Size2D, axes: LayoutAxes) -> (r: Subspace)
        ensures
            r.model() == SubspaceState::new(origin, usable, axes),
    {
        Subspace {
            origin,
            usable: axes.generalize(usable),
            dimensions: Size2D::zero(),
            boxes: Vec::new(),
            spacing: LastSpacing::Forbidden,
        }
    }
}

impl View for StackLayouter {
    type V = StackState;

    closed spec fn view(&self) -> StackState {
        StackState {
            spaces: self.ctx.spaces@,
            axes: self.ctx.axes,
            expand: self.ctx.expand,
            layouts: self.layouts@,
            space: self.space.model(),
            sub: self.sub.model(),
        }
    }
}

impl StackLayouter {
    /// What holds of a layouter between any two operations.
    pub open spec fn wf(&self) -> bool {
        self@.wf()
    }

    /// Create a new stack layouter.
    pub fn new(ctx: StackContext) -> (r: StackLayouter)
        requires
            0 < ctx.spaces@.len() <= MAX_SPACES,
        ensures
            r.wf(),
            r@ == StackState::new(ctx.spaces@, ctx.axes, ctx.expand),
    {
        let axes = ctx.axes;
        let space = spaces_get(&ctx.spaces, 0);
        StackLayouter {
            ctx,
            layouts: MultiLayout::new(),
            space: Space::new(0, true),
            sub: Subspace::new(space.start(), space.usable(), axes),
        }
    }

    /// Create a new stack layouter if the context holds at least one area and
    /// no more than [`MAX_SPACES`]. A context that does not is handed back.
    pub fn try_new(ctx: StackContext) -> (r: Result<StackLayouter, StackContext>)
        ensures
            r is Ok <==> 0 < ctx.spaces@.len() <= MAX_SPACES,
            r matches Ok(layouter) ==> layouter.wf() && layouter@ == StackState::new(
                ctx.spaces@,
                ctx.axes,
                ctx.expand,
            ),
            r matches Err(back) ==> back == ctx,
    {
        let count = spaces_len(&ctx.spaces);
        if 0 < count && count <= MAX_SPACES {
            Ok(StackLayouter::new(ctx))
        } else {
            Err(ctx)
        }
    }

    /// Add spacing to the stack.
    pub fn add_space(&mut self, space: Size, kind: SpaceKind)
        requires
            old(self).wf(),
        ensures
            final(self).wf(),
            final(self)@ == old(self)@.add_space(space, kind),
            final(self)@.sub.used.y <= old(self)@.sub.usable.y,
            kind is Hard && space >= old(self)@.sub.usable.y - old(self)@.sub.used.y
                ==> final(self)@.sub.used.y == old(self)@.sub.usable.y,
            kind is Hard && space <= old(self)@.sub.usable.y - old(self)@.sub.used.y
                ==> final(self)@.sub.used.y == old(self)@.sub.used.y + space,
            kind is Soft ==> final(self)@.sub.used == old(self)@.sub.used,
    {
        match kind {
            SpaceKind::Soft => {
                match self.sub.spacing {
                    LastSpacing::Forbidden => {},
                    _ => {
                        self.sub.spacing = LastSpacing::Soft(space);
                    },
                }
            },
            SpaceKind::Hard => {
                let room: Size = self.sub.usable.y - self.sub.dimensions.y;
                if space > room {
                    self.sub.dimensions.y = self.sub.usable.y;
                } else {
                    self.sub.dimensions.y = self.sub.dimensions.y + space;
                }
                self.sub.spacing = LastSpacing::Forbidden;
            },
        }
    }

    /// The usable extent of the current subspace along the primary axis.
    pub fn primary_usable(&self) -> (r: Size)
        ensures
            r == self@.sub.usable.x,
    {
        self.sub.usable.x
    }

    /// Whether the current space holds nothing that shows.
    pub fn space_is_empty(&self) -> (r: bool)
        ensures
            r == self@.space_is_empty(),
    {
        self.space.combined_dimensions.is_zero() && self.space.actions.len() == 0
            && self.sub.dimensions.is_zero()
    }

    /// Whether the current space is the last one in the list of areas.
    pub fn space_is_last(&self) -> (r: bool)
        requires
            self.wf(),
        ensures
            r == self@.space_is_last(),
    {
        self.space.index == spaces_len(&self.ctx.spaces) - 1
    }

    /// The index of the area that follows the current one; the last area is
    /// followed by itself.
    fn next_space(&self) -> (r: usize)
        requires
            self.wf(),
        ensures
            r == self@.next_space(),
    {
        let last: usize = spaces_len(&self.ctx.spaces) - 1;
        if self.space.index < last {
            self.space.index + 1
        } else {
            last
        }
    }

    /// Start an empty space on the area at `space`.
    fn start_space(&mut self, space: usize, hard: bool)
        requires
            space < old(self)@.spaces.len() <= MAX_SPACES,
        ensures
            final(self).wf(),
            final(self)@ == old(self)@.start_space(space as int, hard),
    {
        self.space = Space::new(space, hard);
        let area = spaces_get(&self.ctx.spaces, space);
        self.sub = Subspace::new(area.start(), area.usable(), self.ctx.axes);
    }

    /// Finish the current subspace: its boxes get their positions and move to
    /// the space, and the space grows to cover what the subspace has used.
    fn finish_subspace(&mut self)
        requires
            old(self).wf(),
        ensures
            final(self).wf(),
            final(self)@ == old(self)@.finish_subspace(),
    {
        let ghost before = self@;
        let axes = self.ctx.axes;
        let factor = axes.secondary.axis.factor();
        let outer = axes.anchor(self.sub.usable);
        let inner = axes.anchor(Size2D::with_y(self.sub.dimensions.y));
        let anchor = Point {
            x: outer.x as i64 - inner.x as i64,
            y: outer.y as i64 - inner.y as i64,
        };
        let origin = self.sub.origin.to_point();

        let mut boxes: Vec<BoxRecord> = Vec::new();
        let mut actions: Vec<LayoutAction> = Vec::new();
        core::mem::swap(&mut self.sub.boxes, &mut boxes);
        core::mem::swap(&mut self.space.actions, &mut actions);
        let ghost records = boxes@;
        let ghost placed = actions@;

        for record in it: boxes
            invariant
                it.seq() == records,
                factor == axes.secondary.axis.spec_factor(),
                anchor.x == axes.primary.spec_anchor(before.sub.usable.x),
                anchor.y == axes.secondary.spec_anchor(before.sub.usable.y)
                    - axes.secondary.spec_anchor(before.sub.used.y),
                origin == before.sub.origin.spec_to_point(),
                axes == before.axes,
                0 <= anchor.x <= Size::MAX,
                -Size::MAX <= anchor.y <= Size::MAX,
                actions@.len() == placed.len() + it.index(),
                forall|i: int| 0 <= i < placed.len() ==> actions@[i] == placed[i],
                forall|i: int|
                    0 <= i < it.index() ==> actions@[placed.len() + i] == before.place(records[i]),
        {
            assert(factor * record.offset == if factor == 1 {
                record.offset as int
            } else {
                -record.offset
            }) by (nonlinear_arith)
                requires
                    factor == 1 || factor == -1,
            ;
            let local = Point {
                x: anchor.x - record.anchor as i64,
                y: anchor.y + factor * (record.offset as i64),
            };
            let shift = axes.specialize_point(local);
            let position = Point { x: origin.x + shift.x, y: origin.y + shift.y };
            actions.push(LayoutAction { position, layout: record.layout });
        }
        core::mem::swap(&mut self.space.actions, &mut actions);
        assert(self.space.actions@ =~= placed + records.map_values(
            |record: BoxRecord| before.place(record),
        ));

        if axes.primary.needs_expansion() {
            self.sub.dimensions.x = self.sub.usable.x;
        }
        if axes.secondary.needs_expansion() {
            self.sub.dimensions.y = self.sub.usable.y;
        }
        let area = spaces_get(&self.ctx.spaces, self.space.index);
        let start = area.start();
        let reach = axes.specialize(self.sub.dimensions);
        let covered = Size2D {
            x: self.sub.origin.x - start.x + reach.x,
            y: self.sub.origin.y - start.y + reach.y,
        };
        self.space.combined_dimensions = self.space.combined_dimensions.max(covered);
    }

    /// Finish the current space and start a new one on the next area. The new
    /// space is `hard` if asked so; a hard space yields a layout even if
    /// nothing is added to it.
    pub fn finish_space(&mut self, hard: bool)
        requires
            old(self).wf(),
        ensures
            final(self).wf(),
            final(self)@ == old(self)@.finish_space(hard),
            final(self)@.layouts == old(self)@.layouts.push(
                old(self)@.finish_subspace().finished_layout(),
            ),
            fits_area(
                old(self)@.finish_subspace().finished_layout(),
                old(self)@.area(),
                old(self)@.expand,
            ),
    {
        proof {
            lemma_finish_space_emits(self@, hard);
        }
        self.finish_subspace();
        let area = spaces_get(&self.ctx.spaces, self.space.index);
        let dimensions = if self.ctx.expand {
            area.dimensions
        } else {
            self.space.combined_dimensions.padded(area.padding)
        };
        let mut actions: Vec<LayoutAction> = Vec::new();
        core::mem::swap(&mut self.space.actions, &mut actions);
        self.layouts.add(Layout { dimensions, actions });
        let next = self.next_space();
        self.start_space(next, hard);
    }

    /// Origin and usable extent (both specialized) of what the current
    /// subspace has left.
    fn remaining_subspace(&self) -> (r: (Size2D, Size2D))
        requires
            self.wf(),
        ensures
            r == self@.remaining_subspace(),
    {
        let axes = self.ctx.axes;
        let shift = if axes.secondary.axis.is_positive() {
            axes.specialize(Size2D::with_y(self.sub.dimensions.y))
        } else {
            Size2D::zero()
        };
        let origin = Size2D { x: self.sub.origin.x + shift.x, y: self.sub.origin.y + shift.y };
        let usable = axes.specialize(
            Size2D {
                x: self.sub.usable.x,
                y: (self.sub.usable.y - self.sub.dimensions.y).saturating_sub(
                    self.sub.spacing.soft_or_zero(),
                ),
            },
        );
        (origin, usable)
    }

    /// Change the layouting axes. New axes end the current subspace; what it
    /// has left becomes the next subspace.
    pub fn set_axes(&mut self, axes: LayoutAxes)
        requires
            old(self).wf(),
        ensures
            final(self).wf(),
            final(self)@ == old(self)@.set_axes(axes),
            axes == old(self)@.axes || !old(self)@.axes.secondary.expand
                ==> final(self)@.remaining_subspace().1 == old(self)@.remaining_subspace().1,
    {
        proof {
            if axes == self@.axes || !self@.axes.secondary.expand {
                lemma_set_axes_keeps_remaining(self@, axes);
            }
        }
        if axes != self.ctx.axes {
            self.finish_subspace();
            let (origin, usable) = self.remaining_subspace();
            self.ctx.axes = axes;
            self.sub = Subspace::new(origin, usable, axes);
        }
    }

    /// Change the areas to lay out into. If `replace_empty` is set and the
    /// current space is empty, the layouter starts over on the first of the new
    /// areas. Otherwise the new areas follow the current one, in place of the
    /// areas that followed it before.
    pub fn set_spaces(&mut self, spaces: LayoutSpaces, replace_empty: bool)
        requires
            old(self).wf(),
            old(self)@.accepts_spaces(spaces@.len(), replace_empty),
        ensures
            final(self).wf(),
            final(self)@ == old(self)@.set_spaces(spaces@, replace_empty),
    {
        if replace_empty && self.space_is_empty() {
            self.ctx.spaces = spaces;
            self.start_space(0, self.space.hard);
        } else {
            spaces_truncate(&mut self.ctx.spaces, self.space.index + 1);
            assert(self.ctx.spaces@ =~= old(self)@.spaces.take(self.space.index + 1));
            spaces_extend(&mut self.ctx.spaces, spaces);
        }
    }

    /// Change the areas to lay out into, as [`StackLayouter::set_spaces`] does,
    /// if the list of areas can take the new ones. If it cannot, because a
    /// replacement holds no area or because the list would grow beyond
    /// [`MAX_SPACES`], the layouter stays as it is and the new areas are handed
    /// back.
    pub fn try_set_spaces(&mut self, spaces: LayoutSpaces, replace_empty: bool) -> (r: Result<
        (),
        LayoutSpaces,
    >)
        requires
            old(self).wf(),
        ensures
            final(self).wf(),
            r is Ok <==> old(self)@.accepts_spaces(spaces@.len(), replace_empty),
            r is Ok ==> final(self)@ == old(self)@.set_spaces(spaces@, replace_empty),
            r matches Err(back) ==> back == spaces && final(self)@ == old(self)@,
    {
        let count = spaces_len(&spaces);
        let accepted = if replace_empty && self.space_is_empty() {
            0 < count && count <= MAX_SPACES
        } else {
            count <= MAX_SPACES - (self.space.index + 1)
        };
        if accepted {
            self.set_spaces(spaces, replace_empty);
            Ok(())
        } else {
            Err(spaces)
        }
    }

    /// The areas that are left: first what the current subspace has left, then
    /// the usable part of each area behind the current one.
    pub fn remaining(&self) -> (r: LayoutSpaces)
        requires
            self.wf(),
        ensures
            r@ == self@.remaining(),
            r@.len() == self@.spaces.len() - self@.space.index,
    {
        proof {
            lemma_remaining_counts(self@);
        }
        let mut spaces = spaces_new();
        spaces_push(
            &mut spaces,
            LayoutSpace { dimensions: self.remaining_subspace().1, padding: SizeBox::zero() },
        );
        let n = spaces_len(&self.ctx.spaces);
        let next: usize = self.space.index + 1;
        let mut i: usize = next;
        while i < n
            invariant
                1 <= next <= i <= n == self@.spaces.len() <= MAX_SPACES,
                next == self@.space.index + 1,
                spaces@.len() == 1 + (i - next),
                spaces@ == self@.remaining().take(1 + (i - next)),
            decreases n - i,
        {
            spaces_push(&mut spaces, spaces_get(&self.ctx.spaces, i).usable_space());
            proof {
                let ahead = self@.ahead();
                assert(ahead.len() == n - next);
                assert(ahead[i - next] == self@.spaces[i as int].spec_usable_space());
                assert(self@.remaining()[1 + (i - next)] == ahead[i - next]);
            }
            i += 1;
            assert(spaces@ =~= self@.remaining().take(1 + (i - next)));
        }
        assert(spaces@ =~= self@.remaining());
        spaces
    }

    /// Whether a box of the generalized extent `size` fits into the current
    /// subspace behind what is already there.
    fn has_room(&self, size: Size2D) -> (r: bool)
        ensures
            r == self@.has_room(size),
    {
        max(self.sub.dimensions.x, size.x) <= self.sub.usable.x && self.sub.dimensions.y as u64
            + size.y as u64 <= self.sub.usable.y as u64
    }

    /// Add a box to the stack.
    ///
    /// Pending soft spacing takes effect first. If the box does not fit into the
    /// current subspace, the current space is finished and the box is tried on
    /// the next area, and so on. The box is given up once it does not fit into
    /// an empty space on the last area.
    pub fn add(&mut self, layout: Layout) -> (r: LayoutResult<()>)
        requires
            old(self).wf(),
        ensures
            final(self).wf(),
            final(self)@ == old(self)@.add(layout),
            r is Ok <==> old(self)@.add_ok(layout),
            r is Err ==> r == Err::<(), LayoutError>(LayoutError::NoRoom),
            final(self)@.spaces == old(self)@.spaces,
            final(self)@.axes == old(self)@.axes,
            final(self)@.expand == old(self)@.expand,
            extends_within(
                old(self)@.layouts,
                final(self)@.layouts,
                old(self)@.spaces,
                old(self)@.expand,
            ),
    {
        proof {
            lemma_add_ok_iff_room_found(self@, layout);
            lemma_add_emits(self@, layout);
        }
        if let LastSpacing::Soft(amount) = self.sub.spacing {
            self.add_space(amount, SpaceKind::Hard);
        }
        let size = self.ctx.axes.generalize(layout.dimensions);

        while !self.has_room(size)
            invariant
                self.wf(),
                self@.axes == old(self)@.axes,
                size == old(self)@.axes.spec_generalize(layout.dimensions),
                self@.find_room(size) == old(self)@.settle(layout),
                old(self)@.add_ok(layout) <==> old(self)@.settle(layout).has_room(size),
                old(self)@.add(layout).spaces == old(self)@.spaces,
                old(self)@.add(layout).expand == old(self)@.expand,
                extends_within(
                    old(self)@.layouts,
                    old(self)@.add(layout).layouts,
                    old(self)@.spaces,
                    old(self)@.expand,
                ),
            decreases self@.retries(),
        {
            if self.space_is_last() && self.space_is_empty() {
                return Err(LayoutError::NoRoom);
            }
            self.finish_space(false);
        }

        let offset = self.sub.dimensions.y;
        let anchor = self.ctx.axes.primary.anchor(size.x);
        self.sub.boxes.push(BoxRecord { offset, anchor, layout });
        self.sub.dimensions = Size2D {
            x: max(self.sub.dimensions.x, size.x),
            y: self.sub.dimensions.y + size.y,
        };
        self.sub.spacing = LastSpacing::Allowed;
        Ok(())
    }

    /// Add the boxes to the stack, one after the other, up to the first one
    /// that cannot be added.
    pub fn add_multiple(&mut self, layouts: MultiLayout) -> (r: LayoutResult<()>)
        requires
            old(self).wf(),
        ensures
            final(self).wf(),
            final(self)@ == old(self)@.add_multiple(layouts.layouts@),
            r is Ok <==> old(self)@.add_multiple_ok(layouts.layouts@),
            r is Err ==> r == Err::<(), LayoutError>(LayoutError::NoRoom),
            final(self)@.spaces == old(self)@.spaces,
            final(self)@.axes == old(self)@.axes,
            final(self)@.expand == old(self)@.expand,
            extends_within(
                old(self)@.layouts,
                final(self)@.layouts,
                old(self)@.spaces,
                old(self)@.expand,
            ),
    {
        let ghost all = layouts.layouts@;
        proof {
            lemma_add_multiple_emits(self@, all);
        }
        assert(all.skip(0) =~= all);
        for layout in it: layouts.layouts
            invariant
                self.wf(),
                it.seq() == all,
                old(self)@.add_multiple(all) == self@.add_multiple(all.skip(it.index() as int)),
                old(self)@.add_multiple_ok(all) == self@.add_multiple_ok(
                    all.skip(it.index() as int),
                ),
                old(self)@.add_multiple(all).spaces == old(self)@.spaces,
                old(self)@.add_multiple(all).axes == old(self)@.axes,
                old(self)@.add_multiple(all).expand == old(self)@.expand,
                extends_within(
                    old(self)@.layouts,
                    old(self)@.add_multiple(all).layouts,
                    old(self)@.spaces,
                    old(self)@.expand,
                ),
        {
            let ghost rest = all.skip(it.index() as int);
            assert(rest[0] == layout);
            assert(rest.drop_first() =~= all.skip(it.index() + 1));
            match self.add(layout) {
                Ok(_) => {},
                Err(e) => {
                    return Err(e);
                },
            }
        }
        Ok(())
    }

    /// Finish the layouting and hand out the layouts. The current space is
    /// finished if it is hard or not empty.
    pub fn finish(self) -> (r: MultiLayout)
        requires
            self.wf(),
        ensures
            r@ == self@.finish(),
            extends_within(self@.layouts, r@, self@.spaces, self@.expand),
    {
        proof {
            lemma_finish_emits(self@);
        }
        let mut layouter = self;
        if layouter.space.hard || !layouter.space_is_empty() {
            layouter.finish_space(false);
        }
        layouter.layouts
    }
}

} // verus!
