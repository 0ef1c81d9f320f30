//! The statically-typed composition strategy: a homogeneous container
//! parametrized over one content type, and the tagged union that closes it
//! into heterogeneity without dynamic dispatch.
use crate::text::{joined_report, raw_report, trim_report, trim_trailing_ws};
use crate::widget::{Number, Widget};
use crate::Component;
use vstd::prelude::*;

verus! {

/// An ordered collection whose children all share one concrete type.
pub struct Container<Content> {
    content: Vec<Content>,
}

impl<Content> Container<Content> {
    /// The children of this container, in order.
    pub closed spec fn children(&self) -> Seq<Content> {
        self.content@
    }

    /// Append a child; the returned index is the 0-based position the child
    /// occupies at insertion time. Never fails.
    pub fn add(&mut self, content: Content) -> (index: usize)
        ensures
            final(self).children() == old(self).children().push(content),
            index as int == old(self).children().len(),
            final(self).children()[index as int] == content,
    {
        self.content.push(content);
        self.content.len() - 1
    }

    /// Remove and return the child at `index`, shifting later children down
    /// by one position. An out-of-range index is not an error: the result is
    /// `None` and the container is left unchanged.
    pub fn remove(&mut self, index: usize) -> (removed: Option<Content>)
        ensures
            index < old(self).children().len() ==> {
                &&& removed == Some(old(self).children()[index as int])
                &&& final(self).children() == old(self).children().remove(index as int)
            },
            index >= old(self).children().len() ==> {
                &&& removed is None
                &&& *final(self) == *old(self)
            },
    {
        if index < self.content.len() {
            Some(self.content.remove(index))
        } else {
            None
        }
    }
}

impl<Content> Default for Container<Content> {
    /// An empty container.
    fn default() -> (c: Self)
        ensures
            c.children() == Seq::<Content>::empty(),
    {
        Container { content: Vec::new() }
    }
}

impl<Content: Component> Component for Container<Content> {
    open spec fn spec_report(&self) -> Seq<char>
        decreases self,
    {
        joined_report(self.children())
    }

    fn report(&self) -> (r: String)
        decreases self,
    {
        let mut raw = String::new();
        let mut i: usize = 0;
        while i < self.content.len()
            invariant
                i <= self.content@.len(),
                raw@ == raw_report(self.content@.subrange(0, i as int)),
            decreases self.content@.len() - i,
        {
            let line = self.content[i].report();
            raw.append(line.as_str());
            raw.append("\n");
            proof {
                reveal_strlit("\n");
                let post = self.content@.subrange(0, i + 1 as int);
                assert(post.subrange(0, post.len() - 1) =~= self.content@.subrange(0, i as int));
                assert(post.last() == self.content@[i as int]);
                assert("\n"@ =~= seq!['\n']);
            }
            i += 1;
        }
        proof {
            assert(self.content@.subrange(0, self.content@.len() as int) =~= self.content@);
        }
        trim_report(raw.as_str())
    }
}

/// A closed tagged union over the known node kinds, letting one
/// statically-typed container hold a mix of leaves and nested containers.
#[non_exhaustive]
pub enum Poly {
    Widget(Widget),
    Number(Number),
    Container(Container<Poly>),
}

/// Concatenation of the tagged values' reports, a newline after each.
///
/// The tag cannot reuse the generic container report: instantiating the
/// container's `Component` implementation at the tag itself would make the
/// two trait implementations mutually dependent, which the verifier refuses.
/// So the join over tagged children is stated and implemented concretely;
/// `lemma_poly_raw_report_matches` proves it equal to the generic one.
pub open spec fn poly_raw_report(s: Seq<Poly>) -> Seq<char>
    decreases s,
{
    if s.len() == 0 {
        Seq::empty()
    } else {
        poly_raw_report(s.subrange(0, s.len() - 1)) + s.last().spec_report() + seq!['\n']
    }
}

impl Component for Poly {
    open spec fn spec_report(&self) -> Seq<char>
        decreases self,
    {
        match self {
            Poly::Widget(w) => w.spec_report(),
            Poly::Number(n) => n.spec_report(),
            Poly::Container(c) => trim_trailing_ws(poly_raw_report(c.children())),
        }
    }

    fn report(&self) -> (r: String)
        decreases self,
    {
        match self {
            Poly::Widget(w) => w.report(),
            Poly::Number(n) => n.report(),
            Poly::Container(c) => poly_container_report(c),
        }
    }
}

/// The report of a container of tagged values: each child's report,
/// newline-joined in order, trailing whitespace trimmed.
fn poly_container_report(c: &Container<Poly>) -> (r: String)
    ensures
        r@ == trim_trailing_ws(poly_raw_report(c.children())),
    decreases c,
{
    let mut raw = String::new();
    let mut i: usize = 0;
    while i < c.content.len()
        invariant
            i <= c.content@.len(),
            raw@ == poly_raw_report(c.content@.subrange(0, i as int)),
        decreases c.content@.len() - i,
    {
        let line = c.content[i].report();
        raw.append(line.as_str());
        raw.append("\n");
        proof {
            reveal_strlit("\n");
            let post = c.content@.subrange(0, i + 1 as int);
            assert(post.subrange(0, post.len() - 1) =~= c.content@.subrange(0, i as int));
            assert(post.last() == c.content@[i as int]);
            assert("\n"@ =~= seq!['\n']);
        }
        i += 1;
    }
    proof {
        assert(c.content@.subrange(0, c.content@.len() as int) =~= c.content@);
    }
    trim_report(raw.as_str())
}

/// `remove(index)` followed by `report()` omits exactly the removed child's
/// contribution — its own report and the newline after it — and shifts the
/// later children's lines up by one position.
pub proof fn lemma_remove_then_report<Content: Component>(
    before: Container<Content>,
    after: Container<Content>,
    index: int,
)
    requires
        0 <= index < before.children().len(),
        after.children() == before.children().remove(index),
    ensures
        raw_report(before.children()) == raw_report(before.children().subrange(0, index))
            + before.children()[index].spec_report() + seq!['\n'] + raw_report(
            before.children().subrange(index + 1, before.children().len() as int),
        ),
        raw_report(after.children()) == raw_report(before.children().subrange(0, index))
            + raw_report(before.children().subrange(index + 1, before.children().len() as int)),
{
    crate::text::lemma_report_omits_removed_child(before.children(), index);
}

/// The tagged values' line block is the same whether built through the tag's
/// own dispatch or through the shared reporting capability.
pub proof fn lemma_poly_raw_report_matches(s: Seq<Poly>)
    ensures
        poly_raw_report(s) == raw_report(s),
    decreases s.len(),
{
    if s.len() > 0 {
        lemma_poly_raw_report_matches(s.subrange(0, s.len() - 1));
    }
}

/// A container nested inside the tagged union contributes exactly its own
/// report, in place: wrapping it in the tag changes nothing of its text.
pub proof fn lemma_poly_container_report_inline(c: Container<Poly>)
    ensures
        Poly::Container(c).spec_report() == c.spec_report(),
{
    lemma_poly_raw_report_matches(c.children());
}

/// A container without children reports empty text.
pub proof fn lemma_empty_container_report<Content: Component>(c: Container<Content>)
    requires
        c.children().len() == 0,
    ensures
        c.spec_report() == Seq::<char>::empty(),
{
    assert(c.children() =~= Seq::<Content>::empty());
    crate::text::lemma_report_of_empty::<Content>();
}

} // verus!
