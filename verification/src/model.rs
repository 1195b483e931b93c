//! The mathematical model of a stack layouter.
//!
//! A [`StackState`] is the whole state of a layouter, with sequences in place
//! of vectors. Every operation of the layouter is a function from a state to
//! the state after it.
use crate::axes::LayoutAxes;
use crate::layout::{Layout, LayoutAction, LayoutView, SpaceKind};
use crate::size::{clamped_sub, spec_max, Point, Size, Size2D, SizeBox};
use crate::spaces::{LayoutSpace, MAX_SPACES};
use vstd::prelude::*;

verus! {

/// Whether spacing may follow what was added last.
#[derive(Clone, Copy, Debug, PartialEq, Eq, Structural)]
pub enum LastSpacing {
    /// Soft spacing is dropped: nothing was added yet, or hard spacing was
    /// added last.
    Forbidden,
    /// A box was added last, so spacing may follow.
    Allowed,
    /// Soft spacing of this amount was added last. It takes effect when a box
    /// follows, and is dropped when the subspace ends first.
    Soft(Size),
}

impl LastSpacing {
    pub open spec fn spec_soft_or_zero(&self) -> Size {
        match *self {
            LastSpacing::Soft(amount) => amount,
            _ => 0,
        }
    }

    /// The amount of the pending soft spacing, or zero if none is pending.
    #[verifier::when_used_as_spec(spec_soft_or_zero)]
    pub fn soft_or_zero(&self) -> (r: Size)
        ensures
            r == self.spec_soft_or_zero(),
    {
        match self {
            LastSpacing::Soft(amount) => *amount,
            _ => 0,
        }
    }
}

/// A box that waits in a subspace for its final position.
#[derive(Debug, Clone, PartialEq, Eq)]
pub struct BoxRecord {
    /// How far behind the start of the subspace the box begins, along the
    /// secondary axis.
    pub offset: Size,
    /// The anchor of the box along the primary axis.
    pub anchor: Size,
    /// The box itself.
    pub layout: Layout,
}

/// The region of a space that boxes are currently stacked into.
pub struct SubspaceState {
    /// Where the subspace begins inside its area (specialized).
    pub origin: Size2D,
    /// The extent that the subspace may use (generalized).
    pub usable: Size2D,
    /// The extent that is used (generalized): along the primary axis the
    /// widest box, along the secondary axis the sum of boxes and spacing.
    pub used: Size2D,
    /// The boxes stacked so far, in the order in which they were added.
    pub boxes: Seq<BoxRecord>,
    /// Whether spacing may follow.
    pub spacing: LastSpacing,
}

/// The area that is currently filled.
pub struct SpaceState {
    /// The index of the area in the list of areas.
    pub index: int,
    /// Whether the space yields a layout even if it stays empty.
    pub hard: bool,
    /// The boxes of the subspaces that were finished, with their positions.
    pub actions: Seq<LayoutAction>,
    /// The extent from the start of the usable part of the area to the
    /// farthest point that a finished subspace has used (specialized).
    pub combined: Size2D,
}

/// The state of a stack layouter.
pub struct StackState {
    /// The areas to lay out into.
    pub spaces: Seq<LayoutSpace>,
    /// The axes along which boxes are currently laid out.
    pub axes: LayoutAxes,
    /// Whether a finished layout takes the full extent of its area, rather
    /// than the extent that was used.
    pub expand: bool,
    /// The layouts of the spaces that were finished.
    pub layouts: Seq<LayoutView>,
    /// The current space.
    pub space: SpaceState,
    /// The current subspace.
    pub sub: SubspaceState,
}

/// An operation on a layouter that leaves the list of areas as it is.
pub enum Step {
    /// A box is added.
    Add(Layout),
    /// Boxes are added, one after the other.
    AddMultiple(Seq<Layout>),
    /// Spacing is added.
    AddSpace(Size, SpaceKind),
    /// The axes are set.
    SetAxes(LayoutAxes),
    /// The current space is finished, and the next one is hard if asked so.
    FinishSpace(bool),
}

impl SubspaceState {
    /// The empty subspace that begins at `origin` and may use `usable`
    /// (specialized) under `axes`.
    pub open spec fn new(origin: Size2D, usable: Size2D, axes: LayoutAxes) -> SubspaceState {
        SubspaceState {
            origin,
            usable: axes.spec_generalize(usable),
            used: Size2D::spec_zero(),
            boxes: Seq::empty(),
            spacing: LastSpacing::Forbidden,
        }
    }
}

impl SpaceState {
    /// The empty space on the area at `index`.
    pub open spec fn new(index: int, hard: bool) -> SpaceState {
        SpaceState { index, hard, actions: Seq::empty(), combined: Size2D::spec_zero() }
    }
}

impl StackState {
    /// The area that the current space fills.
    pub open spec fn area(self) -> LayoutSpace {
        self.spaces[self.space.index]
    }

    /// The current subspace lies inside the usable part of the current area,
    /// and so does everything that the space has used so far.
    pub open spec fn within_area(self) -> bool {
        let start = self.area().spec_start();
        let room = self.area().spec_usable();
        let reach = self.axes.spec_specialize(self.sub.usable);
        &&& start.x <= self.sub.origin.x
        &&& start.y <= self.sub.origin.y
        &&& self.sub.origin.x - start.x + reach.x <= room.x
        &&& self.sub.origin.y - start.y + reach.y <= room.y
        &&& room.spec_fits(self.space.combined)
    }

    /// What holds of the state of a layouter at all times: the list of areas
    /// is not empty and not longer than a list of areas may be, the current
    /// space is on one of the areas, the used extent of the subspace is within
    /// its usable extent, and the subspace is within the area.
    pub open spec fn wf(self) -> bool {
        &&& 0 < self.spaces.len() <= MAX_SPACES
        &&& 0 <= self.space.index < self.spaces.len()
        &&& self.sub.usable.spec_fits(self.sub.used)
        &&& self.within_area()
    }

    /// The state of a new layouter: the first area is current, nothing is
    /// used, and the space is hard.
    pub open spec fn new(spaces: Seq<LayoutSpace>, axes: LayoutAxes, expand: bool) -> StackState {
        StackState {
            spaces,
            axes,
            expand,
            layouts: Seq::empty(),
            space: SpaceState::new(0, true),
            sub: SubspaceState::new(spaces[0].spec_start(), spaces[0].spec_usable(), axes),
        }
    }

    /// Whether the current space holds nothing that shows: no finished
    /// subspace has used any extent or left any box, and the current subspace
    /// has used no extent.
    pub open spec fn space_is_empty(self) -> bool {
        &&& self.space.combined.spec_is_zero()
        &&& self.space.actions.len() == 0
        &&& self.sub.used.spec_is_zero()
    }

    /// Whether no area lies behind the current one.
    pub open spec fn space_is_last(self) -> bool {
        self.space.index + 1 >= self.spaces.len()
    }

    /// The index of the area that follows the current one; the last area is
    /// followed by itself.
    pub open spec fn next_space(self) -> int {
        if self.space.index + 1 < self.spaces.len() {
            self.space.index + 1
        } else {
            self.spaces.len() - 1
        }
    }

    /// The state after spacing of `amount` was added.
    ///
    /// Soft spacing becomes pending, in place of soft spacing that was pending
    /// before, unless spacing is forbidden. Hard spacing is used at once, as far
    /// as the subspace has room for it, and forbids soft spacing behind it.
    pub open spec fn add_space(self, amount: Size, kind: SpaceKind) -> StackState {
        match kind {
            SpaceKind::Soft => if self.sub.spacing is Forbidden {
                self
            } else {
                StackState {
                    sub: SubspaceState { spacing: LastSpacing::Soft(amount), ..self.sub },
                    ..self
                }
            },
            SpaceKind::Hard => StackState {
                sub: SubspaceState {
                    used: Size2D {
                        x: self.sub.used.x,
                        y: if self.sub.used.y + amount > self.sub.usable.y {
                            self.sub.usable.y
                        } else {
                            (self.sub.used.y + amount) as Size
                        },
                    },
                    spacing: LastSpacing::Forbidden,
                    ..self.sub
                },
                ..self
            },
        }
    }

    /// The state after pending soft spacing, if there is any, was turned into
    /// hard spacing.
    pub open spec fn materialize(self) -> StackState {
        match self.sub.spacing {
            LastSpacing::Soft(amount) => self.add_space(amount, SpaceKind::Hard),
            _ => self,
        }
    }

    /// Whether a box of the generalized extent `size` fits into the current
    /// subspace behind what is already there.
    pub open spec fn has_room(self, size: Size2D) -> bool {
        &&& spec_max(self.sub.used.x, size.x) <= self.sub.usable.x
        &&& self.sub.used.y + size.y <= self.sub.usable.y
    }

    /// Whether the layouter has run out of areas: the current space is the
    /// last one and is empty, so finishing it would gain nothing.
    pub open spec fn is_stuck(self) -> bool {
        self.space_is_last() && self.space_is_empty()
    }

    /// How many more spaces can be finished in search of room before the
    /// layouter is stuck, at most.
    pub open spec fn retries(self) -> nat {
        let ahead = if self.space.index + 1 < self.spaces.len() {
            2 * (self.spaces.len() - 1 - self.space.index)
        } else {
            0
        };
        let filled: int = if self.space_is_empty() {
            0
        } else {
            1
        };
        (ahead + filled) as nat
    }

    /// The state in which the search for room for a box of the generalized
    /// extent `size` ends: spaces are finished, one after the other, until the
    /// box has room or the layouter is stuck. A space that is started in the
    /// search is not hard: left empty, it yields no layout in the end.
    pub open spec fn find_room(self, size: Size2D) -> StackState
        decreases self.retries(),
    {
        if self.has_room(size) || self.is_stuck() {
            self
        } else {
            self.finish_space(false).find_room(size)
        }
    }

    /// The state after a box was put into the current subspace.
    pub open spec fn place_box(self, layout: Layout) -> StackState {
        let size = self.axes.spec_generalize(layout.dimensions);
        StackState {
            sub: SubspaceState {
                used: Size2D {
                    x: spec_max(self.sub.used.x, size.x),
                    y: (self.sub.used.y + size.y) as Size,
                },
                boxes: self.sub.boxes.push(
                    BoxRecord {
                        offset: self.sub.used.y,
                        anchor: self.axes.primary.spec_anchor(size.x),
                        layout,
                    },
                ),
                spacing: LastSpacing::Allowed,
                ..self.sub
            },
            ..self
        }
    }

    /// The state in which a box is placed or given up: pending soft spacing
    /// has taken effect and room was searched for.
    pub open spec fn settle(self, layout: Layout) -> StackState {
        self.materialize().find_room(self.axes.spec_generalize(layout.dimensions))
    }

    /// Whether a box of the generalized extent `size` fits into an empty
    /// space on the area at `index`.
    pub open spec fn area_has_room(self, index: int, size: Size2D) -> bool {
        self.axes.spec_generalize(self.spaces[index].spec_usable()).spec_fits(size)
    }

    /// Whether adding a box succeeds: once pending soft spacing has taken
    /// effect, the box fits into the current subspace, or else the layouter is
    /// not stuck and some area from the next one on is large enough for the
    /// box.
    pub open spec fn add_ok(self, layout: Layout) -> bool {
        let ready = self.materialize();
        let size = self.axes.spec_generalize(layout.dimensions);
        ready.has_room(size) || (!ready.is_stuck() && exists|k: int|
            ready.next_space() <= k < self.spaces.len() && #[trigger] self.area_has_room(k, size))
    }

    /// The state after a box was added: the box is placed where the search
    /// for room has found room. Where it has found none, the box is given up
    /// and the spaces that were finished in search of room stay finished.
    pub open spec fn add(self, layout: Layout) -> StackState {
        let found = self.settle(layout);
        if found.has_room(self.axes.spec_generalize(layout.dimensions)) {
            found.place_box(layout)
        } else {
            found
        }
    }

    /// Whether adding the boxes one after the other succeeds for all of them.
    pub open spec fn add_multiple_ok(self, layouts: Seq<Layout>) -> bool
        decreases layouts.len(),
    {
        if layouts.len() == 0 {
            true
        } else {
            self.add_ok(layouts[0]) && self.add(layouts[0]).add_multiple_ok(layouts.drop_first())
        }
    }

    /// The state after the boxes were added one after the other, up to and
    /// including the first one that could not be added.
    pub open spec fn add_multiple(self, layouts: Seq<Layout>) -> StackState
        decreases layouts.len(),
    {
        if layouts.len() == 0 {
            self
        } else if self.add_ok(layouts[0]) {
            self.add(layouts[0]).add_multiple(layouts.drop_first())
        } else {
            self.add(layouts[0])
        }
    }

    /// The position that a box of the current subspace gets when the subspace
    /// is finished.
    ///
    /// In generalized coordinates the box lies, along the primary axis, where
    /// its anchor meets the anchor of the usable extent, and along the
    /// secondary axis at its offset, in the direction of the axis, from where
    /// the alignment puts the used extent inside the usable one.
    pub open spec fn box_position(self, record: BoxRecord) -> Point {
        let axes = self.axes;
        let primary: int = axes.primary.spec_anchor(self.sub.usable.x) - record.anchor;
        let secondary: int = axes.secondary.spec_anchor(self.sub.usable.y)
            - axes.secondary.spec_anchor(self.sub.used.y) + axes.secondary.axis.spec_factor()
            * record.offset;
        let local = axes.spec_specialize_point(Point { x: primary as i64, y: secondary as i64 });
        Point {
            x: (self.sub.origin.x + local.x) as i64,
            y: (self.sub.origin.y + local.y) as i64,
        }
    }

    /// The instruction that places a box of the current subspace.
    pub open spec fn place(self, record: BoxRecord) -> LayoutAction {
        LayoutAction { position: self.box_position(record), layout: record.layout }
    }

    /// The used extent of the current subspace, stretched to the usable
    /// extent along each axis that asks for expansion.
    pub open spec fn stretched(self) -> Size2D {
        Size2D {
            x: if self.axes.primary.spec_needs_expansion() {
                self.sub.usable.x
            } else {
                self.sub.used.x
            },
            y: if self.axes.secondary.spec_needs_expansion() {
                self.sub.usable.y
            } else {
                self.sub.used.y
            },
        }
    }

    /// The extent from the start of the usable part of the area to the far
    /// corner of the stretched used extent of the current subspace
    /// (specialized).
    pub open spec fn covered(self) -> Size2D {
        let start = self.area().spec_start();
        let reach = self.axes.spec_specialize(self.stretched());
        Size2D {
            x: (self.sub.origin.x - start.x + reach.x) as Size,
            y: (self.sub.origin.y - start.y + reach.y) as Size,
        }
    }

    /// The state after the current subspace was finished: its boxes have
    /// their positions and belong to the space, its used extent is stretched,
    /// and the space has grown to cover it.
    pub open spec fn finish_subspace(self) -> StackState {
        StackState {
            space: SpaceState {
                actions: self.space.actions + self.sub.boxes.map_values(
                    |record: BoxRecord| self.place(record),
                ),
                combined: self.space.combined.spec_max(self.covered()),
                ..self.space
            },
            sub: SubspaceState { used: self.stretched(), boxes: Seq::empty(), ..self.sub },
            ..self
        }
    }

    /// The state after an empty space was started on the area at `index`.
    pub open spec fn start_space(self, index: int, hard: bool) -> StackState {
        StackState {
            space: SpaceState::new(index, hard),
            sub: SubspaceState::new(
                self.spaces[index].spec_start(),
                self.spaces[index].spec_usable(),
                self.axes,
            ),
            ..self
        }
    }

    /// The layout that the current space yields once its subspace is
    /// finished: as large as the whole area, or as large as what was used
    /// with the padding of the area around it.
    pub open spec fn finished_layout(self) -> LayoutView {
        LayoutView {
            dimensions: if self.expand {
                self.area().dimensions
            } else {
                self.space.combined.spec_padded(self.area().padding)
            },
            actions: self.space.actions,
        }
    }

    /// The state after the current space was finished: its layout is part of
    /// the output, and an empty space is started on the next area.
    pub open spec fn finish_space(self, hard: bool) -> StackState {
        let done = self.finish_subspace();
        StackState { layouts: done.layouts.push(done.finished_layout()), ..done }.start_space(
            done.next_space(),
            hard,
        )
    }

    /// Origin and usable extent (both specialized) of what the current
    /// subspace has left. The origin moves behind the used extent if the
    /// secondary axis grows towards larger coordinates; the usable extent
    /// along the secondary axis shrinks by the used extent and by pending
    /// soft spacing.
    pub open spec fn remaining_subspace(self) -> (Size2D, Size2D) {
        let shift = if self.axes.secondary.axis.spec_is_positive() {
            self.axes.spec_specialize(Size2D::spec_with_y(self.sub.used.y))
        } else {
            Size2D::spec_zero()
        };
        let origin = Size2D {
            x: (self.sub.origin.x + shift.x) as Size,
            y: (self.sub.origin.y + shift.y) as Size,
        };
        let usable = self.axes.spec_specialize(
            Size2D {
                x: self.sub.usable.x,
                y: clamped_sub(
                    self.sub.usable.y as int,
                    self.sub.used.y + self.sub.spacing.spec_soft_or_zero(),
                ) as Size,
            },
        );
        (origin, usable)
    }

    /// The state after the axes were set. New axes end the current subspace
    /// and start one in what it has left; the axes that are already in use
    /// change nothing.
    pub open spec fn set_axes(self, axes: LayoutAxes) -> StackState {
        if axes == self.axes {
            self
        } else {
            let done = self.finish_subspace();
            let (origin, usable) = done.remaining_subspace();
            StackState { axes, sub: SubspaceState::new(origin, usable, axes), ..done }
        }
    }

    /// Whether the list of areas can take `count` new areas: as the whole
    /// list, which takes at least one area, where the new areas replace the old
    /// ones, and else behind the current area. Either way the list stays
    /// within the length that a list of areas may have.
    pub open spec fn accepts_spaces(self, count: nat, replace_empty: bool) -> bool {
        if replace_empty && self.space_is_empty() {
            0 < count <= MAX_SPACES
        } else {
            self.space.index + 1 + count <= MAX_SPACES
        }
    }

    /// The state after the list of areas was changed. If asked to and if the
    /// current space is empty, the new list takes the place of the old one and
    /// the space starts over on its first area. Otherwise the new areas follow
    /// the current one, in place of those that followed it before.
    pub open spec fn set_spaces(self, spaces: Seq<LayoutSpace>, replace_empty: bool) -> StackState {
        if replace_empty && self.space_is_empty() {
            StackState { spaces, ..self }.start_space(0, self.space.hard)
        } else {
            StackState { spaces: self.spaces.take(self.space.index + 1) + spaces, ..self }
        }
    }

    /// The usable part of each area behind the current one.
    pub open spec fn ahead(self) -> Seq<LayoutSpace> {
        self.spaces.skip(self.space.index + 1).map_values(
            |space: LayoutSpace| space.spec_usable_space(),
        )
    }

    /// The areas that are left: what the current subspace has left, without
    /// padding, and the usable part of each area behind the current one. On
    /// the last area that is what the subspace has left and nothing else.
    pub open spec fn remaining(self) -> Seq<LayoutSpace> {
        seq![
            LayoutSpace { dimensions: self.remaining_subspace().1, padding: SizeBox::spec_zero() },
        ] + self.ahead()
    }

    /// The state after one operation.
    pub open spec fn step(self, step: Step) -> StackState {
        match step {
            Step::Add(layout) => self.add(layout),
            Step::AddMultiple(layouts) => self.add_multiple(layouts),
            Step::AddSpace(amount, kind) => self.add_space(amount, kind),
            Step::SetAxes(axes) => self.set_axes(axes),
            Step::FinishSpace(hard) => self.finish_space(hard),
        }
    }

    /// The state after a run of operations, one after the other.
    pub open spec fn run(self, steps: Seq<Step>) -> StackState
        decreases steps.len(),
    {
        if steps.len() == 0 {
            self
        } else {
            self.step(steps[0]).run(steps.drop_first())
        }
    }

    /// The layouts that the layouter yields in the end: the current space is
    /// finished if it is hard or not empty, and dropped otherwise.
    pub open spec fn finish(self) -> Seq<LayoutView> {
        if self.space.hard || !self.space_is_empty() {
            self.finish_space(false).layouts
        } else {
            self.layouts
        }
    }
}

} // verus!
