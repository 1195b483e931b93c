//! Stack layouting: arranging pre-sized boxes one after another along a
//! secondary axis and packing them into a list of bounded areas.
//!
//! The geometry lives in [`size`] and [`axes`], the available areas in
//! [`spaces`], the boxes and finished layouts in [`layout`]. The mathematical
//! model of the layouter is [`model::StackState`]; [`stack::StackLayouter`] is
//! the executable layouter, every operation of which is proved to follow the
//! model. General facts about the model are proved in [`lemmas`].
pub mod axes;
pub mod layout;
pub mod lemmas;
pub mod model;
pub mod size;
pub mod spaces;
pub mod stack;

pub use axes::{AlignedAxis, Alignment, Axis, LayoutAxes};
pub use layout::{Layout, LayoutAction, LayoutError, LayoutResult, LayoutView, MultiLayout, SpaceKind};
pub use model::{BoxRecord, LastSpacing, SpaceState, StackState, Step, SubspaceState};
pub use size::{Point, Size, Size2D, SizeBox};
pub use spaces::{LayoutSpace, LayoutSpaces, MAX_SPACES};
pub use stack::{StackContext, StackLayouter};
