//! The leaf nodes and the dynamic composite: a named widget, an integer
//! leaf, and a window whose heterogeneous children are reached through the
//! shared reporting capability.
use crate::text::{dec_i32, spec_dec_int, trim_report, trim_trailing_ws};
use crate::{Component, Composite};
use vstd::prelude::*;

verus! {

/// A leaf with one immutable name.
pub struct Widget {
    name: String,
}

impl Widget {
    /// The widget's name, as a sequence of characters.
    pub closed spec fn spec_name(&self) -> Seq<char> {
        self.name@
    }

    pub fn new(name: &str) -> (w: Widget)
        ensures
            w.spec_name() == name@,
    {
        Widget { name: String::from_str(name) }
    }
}

impl Component for Widget {
    open spec fn spec_report(&self) -> Seq<char> {
        "Widget '"@ + self.spec_name() + "'."@
    }

    fn report(&self) -> (r: String) {
        let mut r = String::from_str("Widget '");
        r.append(self.name.as_str());
        r.append("'.");
        r
    }
}

/// A leaf with one immutable integer value.
pub struct Number(i32);

impl Number {
    /// The number's value.
    pub closed spec fn spec_value(&self) -> int {
        self.0 as int
    }

    pub fn new(value: i32) -> (n: Number)
        ensures
            n.spec_value() == value as int,
    {
        Number(value)
    }
}

impl Component for Number {
    open spec fn spec_report(&self) -> Seq<char> {
        "Number "@ + spec_dec_int(self.spec_value()) + "."@
    }

    fn report(&self) -> (r: String) {
        let mut r = String::from_str("Number ");
        let digits = dec_i32(self.0);
        r.append(digits.as_str());
        r.append(".");
        r
    }
}

/// The dynamic composite: an ordered sequence of owned, heterogeneous
/// children, each reached through the shared reporting capability.
pub struct Window {
    widgets: Vec<WindowChild>,
}

/// One owned child of a window: any of the known node kinds, windows
/// included, so that windows nest.
pub enum WindowChild {
    Widget(Widget),
    Number(Number),
    Window(Box<Window>),
}

/// Concatenation of the children's reports, a newline after each.
///
/// The window cannot reuse the generic join over `Component` sequences:
/// instantiating it at `WindowChild` would make the window's and the child
/// union's trait implementations mutually dependent, which the verifier
/// refuses. So the join over window children is stated and implemented
/// concretely; `lemma_window_raw_report_matches` proves it equal to the
/// generic one.
pub open spec fn window_raw_report(s: Seq<WindowChild>) -> Seq<char>
    decreases s,
{
    if s.len() == 0 {
        Seq::empty()
    } else {
        window_raw_report(s.subrange(0, s.len() - 1)) + s.last().spec_report() + seq!['\n']
    }
}

impl Component for WindowChild {
    open spec fn spec_report(&self) -> Seq<char>
        decreases self,
    {
        match self {
            WindowChild::Widget(w) => w.spec_report(),
            WindowChild::Number(n) => n.spec_report(),
            WindowChild::Window(w) => w.spec_report(),
        }
    }

    fn report(&self) -> (r: String)
        decreases self,
    {
        match self {
            WindowChild::Widget(w) => w.report(),
            WindowChild::Number(n) => n.report(),
            WindowChild::Window(w) => w.report(),
        }
    }
}

impl Window {
    /// The children of this window, in order.
    pub closed spec fn spec_children(&self) -> Seq<WindowChild> {
        self.widgets@
    }

    pub fn new() -> (w: Window)
        ensures
            w.spec_children() == Seq::<WindowChild>::empty(),
    {
        Window { widgets: Vec::new() }
    }
}

impl Default for Window {
    /// An empty window.
    fn default() -> (w: Self)
        ensures
            w.spec_children() == Seq::<WindowChild>::empty(),
    {
        Window::new()
    }
}

impl Component for Window {
    open spec fn spec_report(&self) -> Seq<char>
        decreases self,
    {
        trim_trailing_ws(window_raw_report(self.spec_children()))
    }

    fn report(&self) -> (r: String)
        decreases self,
    {
        let mut raw = String::new();
        let mut i: usize = 0;
        while i < self.widgets.len()
            invariant
                i <= self.widgets@.len(),
                raw@ == window_raw_report(self.widgets@.subrange(0, i as int)),
            decreases self.widgets@.len() - i,
        {
            let line = self.widgets[i].report();
            raw.append(line.as_str());
            raw.append("\n");
            proof {
                reveal_strlit("\n");
                let post = self.widgets@.subrange(0, i + 1 as int);
                assert(post.subrange(0, post.len() - 1) =~= self.widgets@.subrange(0, i as int));
                assert(post.last() == self.widgets@[i as int]);
                assert("\n"@ =~= seq!['\n']);
            }
            i += 1;
        }
        proof {
            assert(self.widgets@.subrange(0, self.widgets@.len() as int) =~= self.widgets@);
        }
        trim_report(raw.as_str())
    }
}

/// The window children's line block is the same whether built through the
/// child union's own dispatch or through the shared reporting capability.
pub proof fn lemma_window_raw_report_matches(s: Seq<WindowChild>)
    ensures
        window_raw_report(s) == crate::text::raw_report(s),
    decreases s.len(),
{
    if s.len() > 0 {
        lemma_window_raw_report_matches(s.subrange(0, s.len() - 1));
    }
}

/// A window reports exactly the newline-joined reports of its children,
/// trailing whitespace trimmed.
pub proof fn lemma_window_report_joined(w: &Window)
    ensures
        w.spec_report() == crate::text::joined_report(w.spec_children()),
{
    lemma_window_raw_report_matches(w.spec_children());
}

/// A window nested as a child contributes exactly its own report, in place:
/// wrapping it in the child union changes nothing of its text.
pub proof fn lemma_window_child_report_inline(w: Box<Window>)
    ensures
        WindowChild::Window(w).spec_report() == w.spec_report(),
{
}

/// A window without children reports empty text.
pub proof fn lemma_empty_window_report(w: &Window)
    requires
        w.spec_children().len() == 0,
    ensures
        w.spec_report() == Seq::<char>::empty(),
{
    assert(w.spec_children() =~= Seq::<WindowChild>::empty());
}

impl Composite for Window {
    type Child = WindowChild;

    open spec fn children(&self) -> Seq<WindowChild> {
        self.spec_children()
    }

    fn add_component(&mut self, child: WindowChild) -> (index: usize) {
        self.widgets.push(child);
        self.widgets.len() - 1
    }

    fn remove_component(&mut self, index: usize) -> (removed: Option<WindowChild>) {
        if index < self.widgets.len() {
            Some(self.widgets.remove(index))
        } else {
            None
        }
    }
}

} // verus!
