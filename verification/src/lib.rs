use vstd::prelude::*;

pub mod static_p;
pub mod text;
pub mod widget;

verus! {

/// A tree node that can describe itself and its descendants as text:
/// one line per leaf, depth-first in the current child order.
pub trait Component {
    /// The text this node reports, as a mathematical sequence of characters.
    spec fn spec_report(&self) -> Seq<char>;

    /// Produce the textual report of this node and its descendants.
    fn report(&self) -> (r: String)
        ensures
            r@ == self.spec_report(),
    ;
}

/// Reporting is idempotent and side-effect-free: it takes the node by shared
/// reference, so it cannot mutate the tree, and any two reports taken from
/// the same component with no mutation in between are the same text.
pub proof fn lemma_report_repeatable<C: Component>(c: &C, first: &String, second: &String)
    requires
        first@ == c.spec_report(),
        second@ == c.spec_report(),
    ensures
        first@ == second@,
{
}

/// A tree node that owns an ordered sequence of children and supports
/// indexed insertion and removal.
pub trait Composite: Component + Sized {
    type Child;

    /// The children of this composite, in order.
    spec fn children(&self) -> Seq<Self::Child>;

    /// Append a child; the returned index is the 0-based position the child
    /// occupies at insertion time. Never fails.
    fn add_component(&mut self, child: Self::Child) -> (index: usize)
        ensures
            final(self).children() == old(self).children().push(child),
            index as int == old(self).children().len(),
            final(self).children()[index as int] == child,
    ;

    /// Remove and return the child at `index`, shifting later children down
    /// by one position. An out-of-range index is not an error: the result is
    /// `None` and the composite is left unchanged.
    fn remove_component(&mut self, index: usize) -> (removed: Option<Self::Child>)
        ensures
            index < old(self).children().len() ==> {
                &&& removed == Some(old(self).children()[index as int])
                &&& final(self).children() == old(self).children().remove(index as int)
            },
            index >= old(self).children().len() ==> {
                &&& removed is None
                &&& *final(self) == *old(self)
            },
    ;
}

} // verus!
