//! The areas that content is laid out into, and lists of them.
use crate::size::{Size2D, SizeBox};
use smallvec::SmallVec;
use vstd::prelude::*;

verus! {

/// One area that content can be laid out into, such as a page or a column.
#[derive(Clone, Copy, Debug, PartialEq, Eq, Structural)]
pub struct LayoutSpace {
    /// The full extent of the area, padding included.
    pub dimensions: Size2D,
    /// The padding inside the area that content has to keep clear.
    pub padding: SizeBox,
}

impl LayoutSpace {
    pub open spec fn spec_start(&self) -> Size2D {
        Size2D { x: self.padding.left, y: self.padding.top }
    }

    /// Where the usable part of the area begins: behind the left and the top
    /// padding.
    #[verifier::when_used_as_spec(spec_start)]
    pub fn start(&self) -> (r: Size2D)
        ensures
            r == self.spec_start(),
    {
        Size2D { x: self.padding.left, y: self.padding.top }
    }

    pub open spec fn spec_usable(&self) -> Size2D {
        self.dimensions.spec_unpadded(self.padding)
    }

    /// The extent that is left for content: the full extent without the
    /// padding.
    #[verifier::when_used_as_spec(spec_usable)]
    pub fn usable(&self) -> (r: Size2D)
        ensures
            r == self.spec_usable(),
    {
        self.dimensions.unpadded(self.padding)
    }

    pub open spec fn spec_usable_space(&self) -> LayoutSpace {
        LayoutSpace { dimensions: self.spec_usable(), padding: SizeBox::spec_zero() }
    }

    /// The area that consists of the usable part of this one and has no
    /// padding of its own.
    #[verifier::when_used_as_spec(spec_usable_space)]
    pub fn usable_space(&self) -> (r: LayoutSpace)
        ensures
            r == self.spec_usable_space(),
    {
        LayoutSpace { dimensions: self.usable(), padding: SizeBox::zero() }
    }
}

/// The largest number of areas that a list is ever asked to grow to, and so
/// the largest number of areas that a layouter takes. Up to this length the
/// buffer of a list of areas can grow on 32-bit and on 64-bit machines
/// without its size in bytes passing what an allocation may have.
pub const MAX_SPACES: usize = 0x100_0000;

/// A list of areas, kept inline while it holds at most two of them.
///
/// The list is a `smallvec::SmallVec`; what it holds is known to the verifier
/// only as [`spaces_seq`], through the functions of this module that call into
/// `smallvec`.
#[verifier::external_body]
#[derive(Debug)]
pub struct LayoutSpaces {
    inner: SmallVec<[LayoutSpace; 2]>,
}

/// The areas that a list holds, in order.
pub uninterp spec fn spaces_seq(spaces: LayoutSpaces) -> Seq<LayoutSpace>;

impl View for LayoutSpaces {
    type V = Seq<LayoutSpace>;

    open spec fn view(&self) -> Seq<LayoutSpace> {
        spaces_seq(*self)
    }
}

/// `SmallVec::from_vec`: the list holds the items of the vector, in their
/// order. The vector's buffer is taken over, or its items are moved into the
/// inline buffer; nothing is allocated.
#[verifier::external_body]
pub(crate) fn spaces_from_vec(areas: Vec<LayoutSpace>) -> (r: LayoutSpaces)
    ensures
        spaces_seq(r) == areas@,
{
    LayoutSpaces { inner: SmallVec::from_vec(areas) }
}

/// `SmallVec::new`: the new list holds nothing.
#[verifier::external_body]
pub(crate) fn spaces_new() -> (r: LayoutSpaces)
    ensures
        spaces_seq(r) == Seq::<LayoutSpace>::empty(),
{
    LayoutSpaces { inner: SmallVec::new() }
}

/// `SmallVec::len`: the number of areas that the list holds.
#[verifier::external_body]
pub(crate) fn spaces_len(spaces: &LayoutSpaces) -> (n: usize)
    ensures
        n == spaces_seq(*spaces).len(),
{
    spaces.inner.len()
}

/// Indexing a `SmallVec` by a position: a copy of the area at `index`. An
/// index past the end would panic and is excluded.
#[verifier::external_body]
pub(crate) fn spaces_get(spaces: &LayoutSpaces, index: usize) -> (r: LayoutSpace)
    requires
        index < spaces_seq(*spaces).len(),
    ensures
        r == spaces_seq(*spaces)[index as int],
{
    spaces.inner[index]
}

/// `SmallVec::push`: `space` is appended behind the areas that the list held.
/// Growing the buffer panics once the new capacity, the next power of two,
/// no longer fits an allocation; lists below [`MAX_SPACES`] stay clear of that.
/// (Running out of memory ends the process, as it does for a `Vec`.)
#[verifier::external_body]
pub(crate) fn spaces_push(spaces: &mut LayoutSpaces, space: LayoutSpace)
    requires
        spaces_seq(*old(spaces)).len() < MAX_SPACES,
    ensures
        spaces_seq(*final(spaces)) == spaces_seq(*old(spaces)).push(space),
{
    spaces.inner.push(space)
}

/// `SmallVec::truncate`: the first `len` areas stay and the rest is dropped;
/// a list that holds no more than `len` areas is left as it is.
#[verifier::external_body]
pub(crate) fn spaces_truncate(spaces: &mut LayoutSpaces, len: usize)
    ensures
        spaces_seq(*final(spaces)) == if len < spaces_seq(*old(spaces)).len() {
            spaces_seq(*old(spaces)).take(len as int)
        } else {
            spaces_seq(*old(spaces))
        },
{
    spaces.inner.truncate(len)
}

/// `SmallVec::extend` with another list: the areas of `more` are appended, in
/// their order, behind the areas that the list held. As for `push`, the
/// combined length has to stay within [`MAX_SPACES`].
#[verifier::external_body]
pub(crate) fn spaces_extend(spaces: &mut LayoutSpaces, more: LayoutSpaces)
    requires
        spaces_seq(*old(spaces)).len() + spaces_seq(more).len() <= MAX_SPACES,
    ensures
        spaces_seq(*final(spaces)) == spaces_seq(*old(spaces)) + spaces_seq(more),
{
    spaces.inner.extend(more.inner)
}

impl LayoutSpaces {
    /// The list of the areas in `areas`, in the same order.
    pub fn from_vec(areas: Vec<LayoutSpace>) -> (r: LayoutSpaces)
        ensures
            r@ == areas@,
    {
        spaces_from_vec(areas)
    }

    /// The areas of the list as a vector, in the same order.
    pub fn to_vec(&self) -> (r: Vec<LayoutSpace>)
        ensures
            r@ == self@,
    {
        let n = spaces_len(self);
        let mut areas: Vec<LayoutSpace> = Vec::new();
        let mut i: usize = 0;
        while i < n
            invariant
                i <= n == self@.len(),
                areas@ == self@.take(i as int),
            decreases n - i,
        {
            areas.push(spaces_get(self, i));
            i += 1;
        }
        areas
    }

    /// The number of areas in the list.
    pub fn len(&self) -> (n: usize)
        ensures
            n == self@.len(),
    {
        spaces_len(self)
    }

    /// The area at `index`, if the list is that long.
    pub fn get(&self, index: usize) -> (r: Option<LayoutSpace>)
        ensures
            r == if index < self@.len() {
                Some(self@[index as int])
            } else {
                None
            },
    {
        if index < spaces_len(self) {
            Some(spaces_get(self, index))
        } else {
            None
        }
    }
}

impl Clone for LayoutSpaces {
    /// A list of the same areas in the same order.
    fn clone(&self) -> (r: LayoutSpaces)
        ensures
            r@ == self@,
    {
        LayoutSpaces::from_vec(self.to_vec())
    }
}

} // verus!
