use vstd::prelude::*;

use crate::element::Element;

verus! {

/// An ordered collection of children, stored inline up to two of them.
/// Verus cannot declare `smallvec::SmallVec` (its `Array` bound), so the
/// vector stays in a field hidden from verification; what it holds is
/// `child_list`.
#[verifier::external_body]
pub struct ChildList {
    items: smallvec::SmallVec<[Element; 2]>,
}

/// The children held, in order.
pub uninterp spec fn child_list(v: ChildList) -> Seq<Element>;

impl ChildList {
    /// Relies on smallvec::SmallVec::new: a new vector holds nothing.
    #[verifier::external_body]
    pub(crate) fn new() -> (r: ChildList)
        ensures
            child_list(r) == Seq::<Element>::empty(),
    {
        ChildList { items: smallvec::SmallVec::new() }
    }

    /// Relies on smallvec::SmallVec::push: the item goes after those already
    /// held. It panics only when the length would overflow `usize`.
    #[verifier::external_body]
    pub(crate) fn push(&mut self, e: Element)
        requires
            child_list(*old(self)).len() < usize::MAX,
        ensures
            child_list(*final(self)) == child_list(*old(self)).push(e),
    {
        self.items.push(e)
    }

    /// Relies on smallvec::SmallVec::drain over the whole range: every item
    /// is handed out in order and the vector is left empty.
    #[verifier::external_body]
    pub(crate) fn drain(&mut self) -> (r: Vec<Element>)
        ensures
            r@ == child_list(*old(self)),
            child_list(*final(self)) == Seq::<Element>::empty(),
    {
        self.items.drain(..).collect()
    }
}

} // verus!
