//! Boxes, finished layouts and the instructions that place one inside another.
use crate::size::{Point, Size2D};
use vstd::prelude::*;

verus! {

/// A finished layout: an extent and what is placed inside it.
///
/// A box that is handed to a layouter is such a layout; the layouter looks at
/// its extent only and carries the rest along.
#[derive(Debug, PartialEq, Eq)]
pub struct Layout {
    /// The extent of the layout (specialized).
    pub dimensions: Size2D,
    /// The layouts that are placed inside this one, in the order in which
    /// they were added.
    pub actions: Vec<LayoutAction>,
}

/// The instruction to place a layout at a position inside an enclosing one.
#[derive(Debug, PartialEq, Eq)]
pub struct LayoutAction {
    /// Where the layout goes, measured from the top-left corner of the
    /// enclosing layout.
    pub position: Point,
    /// The layout that is placed there.
    pub layout: Layout,
}

/// What a [`Layout`] is, with its actions as a sequence.
pub struct LayoutView {
    pub dimensions: Size2D,
    pub actions: Seq<LayoutAction>,
}

impl View for Layout {
    type V = LayoutView;

    open spec fn view(&self) -> LayoutView {
        LayoutView { dimensions: self.dimensions, actions: self.actions@ }
    }
}

impl Layout {
    /// Whether `other` is a copy of this layout: it has the same extent, and
    /// its actions place copies of the same layouts at the same positions.
    pub open spec fn same_as(&self, other: &Layout) -> bool
        decreases self,
    {
        &&& self.dimensions == other.dimensions
        &&& self.actions@.len() == other.actions@.len()
        &&& forall|i: int|
            0 <= i < self.actions@.len() ==> {
                &&& (#[trigger] self.actions@[i]).position == other.actions@[i].position
                &&& self.actions@[i].layout.same_as(&other.actions@[i].layout)
            }
    }
}

impl Clone for Layout {
    /// A copy of the layout and of all that is placed inside it.
    fn clone(&self) -> (r: Layout)
        ensures
            self.same_as(&r),
        decreases self,
    {
        let mut actions: Vec<LayoutAction> = Vec::new();
        let mut i: usize = 0;
        while i < self.actions.len()
            invariant
                i <= self.actions@.len(),
                actions@.len() == i,
                forall|k: int|
                    0 <= k < i ==> {
                        &&& (#[trigger] self.actions@[k]).position == actions@[k].position
                        &&& self.actions@[k].layout.same_as(&actions@[k].layout)
                    },
            decreases self.actions@.len() - i,
        {
            let action = &self.actions[i];
            actions.push(LayoutAction { position: action.position, layout: action.layout.clone() });
            i += 1;
        }
        Layout { dimensions: self.dimensions, actions }
    }
}

impl Clone for LayoutAction {
    /// An action that places a copy of the layout at the same position.
    fn clone(&self) -> (r: LayoutAction)
        ensures
            r.position == self.position,
            self.layout.same_as(&r.layout),
    {
        LayoutAction { position: self.position, layout: self.layout.clone() }
    }
}

/// A sequence of layouts, such as the pages that a layouter has filled.
#[derive(Debug, Clone, PartialEq, Eq)]
pub struct MultiLayout {
    pub layouts: Vec<Layout>,
}

impl View for MultiLayout {
    type V = Seq<LayoutView>;

    open spec fn view(&self) -> Seq<LayoutView> {
        self.layouts@.map_values(|l: Layout| l@)
    }
}

impl MultiLayout {
    /// The empty sequence of layouts.
    pub fn new() -> (r: MultiLayout)
        ensures
            r@ == Seq::<LayoutView>::empty(),
            r.layouts@ == Seq::<Layout>::empty(),
    {
        let r = MultiLayout { layouts: Vec::new() };
        assert(r@ =~= Seq::<LayoutView>::empty());
        r
    }

    /// Appends a layout behind the ones that are there.
    pub fn add(&mut self, layout: Layout)
        ensures
            final(self)@ == old(self)@.push(layout@),
            final(self).layouts@ == old(self).layouts@.push(layout),
    {
        self.layouts.push(layout);
        assert(self@ =~= old(self)@.push(layout@));
    }

    /// The number of layouts.
    pub fn count(&self) -> (n: usize)
        ensures
            n == self@.len(),
    {
        self.layouts.len()
    }

    /// Whether there is no layout at all.
    pub fn is_empty(&self) -> (r: bool)
        ensures
            r == (self@.len() == 0),
    {
        self.layouts.len() == 0
    }
}

/// How spacing behaves towards what comes behind it.
#[derive(Clone, Copy, Debug, PartialEq, Eq, Structural)]
pub enum SpaceKind {
    /// Spacing that takes effect only if a box follows it before its subspace
    /// ends. Spacing that follows it, soft or hard, takes its place.
    Soft,
    /// Spacing that takes effect at once.
    Hard,
}

/// Why a box could not be laid out.
#[derive(Clone, Copy, Debug, PartialEq, Eq, Structural)]
pub enum LayoutError {
    /// The box does not fit into the current area, which is empty, and no
    /// further area is left to try.
    NoRoom,
}

/// The result of a layouting operation that can fail.
pub type LayoutResult<T> = Result<T, LayoutError>;

} // verus!
