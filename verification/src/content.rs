//! The uniform content node model.
//!
//! A [`Content`] value is the capability-erased carrier used throughout
//! the pipeline: exactly one element-kind instance plus zero or more
//! layered style scopes, innermost last. Content values are immutable;
//! every producing operation returns a fresh value. Two content values
//! are equal exactly when their models ([`ContentView`]) are equal:
//! same element kind, same element data, same attached scopes.

use vstd::prelude::*;

use crate::styles::StyleEntry;

verus! {

/// A text space.
#[derive(Debug, Hash)]
pub struct SpaceNode;

/// A line break. Carries whether to justify the line before the break.
#[derive(Debug, Hash)]
pub struct LinebreakNode {
    pub justify: bool,
}

/// Strong emphasis: increases the font weight of its body.
#[derive(Debug, Hash)]
pub struct StrongNode(pub Box<Content>);

/// Emphasis: sets its body in italics, toggling with the outer state.
#[derive(Debug, Hash)]
pub struct EmphNode(pub Box<Content>);

/// A run of plain text, the leaf the emphasis elements wrap.
#[derive(Debug, Hash)]
pub struct TextNode(pub String);

/// One element-kind instance. The set of kinds is closed and statically
/// known; capability dispatch is a match over this tag.
#[derive(Debug, Hash)]
pub enum Element {
    Text(TextNode),
    Space(SpaceNode),
    Linebreak(LinebreakNode),
    Strong(StrongNode),
    Emph(EmphNode),
}

/// An immutable content value: one element instance plus its attached
/// style scopes, innermost last. Packing wraps a typed instance in a
/// content value; unwrapping is a match on `elem`, which hands the
/// typed instance back to its capability implementations.
#[derive(Debug, Hash)]
pub struct Content {
    pub elem: Element,
    pub styles: Vec<StyleEntry>,
}

/// The mathematical model of an element instance.
#[verifier::ext_equal]
pub ghost enum ElementView {
    Text(Seq<char>),
    Space,
    Linebreak { justify: bool },
    Strong(Box<ContentView>),
    Emph(Box<ContentView>),
}

/// The mathematical model of a content value: the element it carries
/// and its attached style scopes, outermost first.
#[verifier::ext_equal]
pub ghost struct ContentView {
    pub elem: ElementView,
    pub styles: Seq<StyleEntry>,
}

/// The model of an element instance.
pub open spec fn element_view(e: Element) -> ElementView
    decreases e,
{
    match e {
        Element::Text(t) => ElementView::Text(t.0@),
        Element::Space(_) => ElementView::Space,
        Element::Linebreak(l) => ElementView::Linebreak { justify: l.justify },
        Element::Strong(n) => ElementView::Strong(Box::new(content_view(*n.0))),
        Element::Emph(n) => ElementView::Emph(Box::new(content_view(*n.0))),
    }
}

/// The model of a content value.
pub open spec fn content_view(c: Content) -> ContentView
    decreases c,
{
    ContentView { elem: element_view(c.elem), styles: c.styles@ }
}

impl View for Content {
    type V = ContentView;

    open spec fn view(&self) -> ContentView {
        content_view(*self)
    }
}

/// A content value whose element is the given one and whose style-scope
/// chain is empty: what packing a freshly constructed instance yields.
pub open spec fn bare_view(elem: ElementView) -> ContentView {
    ContentView { elem, styles: Seq::<StyleEntry>::empty() }
}

/// The model of pushing one more scope as the new innermost layer.
pub open spec fn styled_view(c: ContentView, entry: StyleEntry) -> ContentView {
    ContentView { elem: c.elem, styles: c.styles.push(entry) }
}

impl Content {
    /// A new content value identical to this one but with one more
    /// style scope pushed as the new innermost layer. The input is
    /// consumed, never mutated in place.
    pub fn styled(self, entry: StyleEntry) -> (r: Content)
        ensures
            r@ == styled_view(self@, entry),
    {
        let mut c = self;
        c.styles.push(entry);
        c
    }
}

impl SpaceNode {
    /// Packs the typed instance into an opaque content value with an
    /// empty style-scope chain.
    pub fn pack(self) -> (c: Content)
        ensures
            c@ == bare_view(ElementView::Space),
    {
        Content { elem: Element::Space(self), styles: Vec::new() }
    }
}

impl LinebreakNode {
    /// Packs the typed instance into an opaque content value with an
    /// empty style-scope chain.
    pub fn pack(self) -> (c: Content)
        ensures
            c@ == bare_view(ElementView::Linebreak { justify: self.justify }),
    {
        Content { elem: Element::Linebreak(self), styles: Vec::new() }
    }
}

impl StrongNode {
    /// Packs the typed instance into an opaque content value with an
    /// empty style-scope chain.
    pub fn pack(self) -> (c: Content)
        ensures
            c@ == bare_view(ElementView::Strong(Box::new(content_view(*self.0)))),
    {
        Content { elem: Element::Strong(self), styles: Vec::new() }
    }
}

impl EmphNode {
    /// Packs the typed instance into an opaque content value with an
    /// empty style-scope chain.
    pub fn pack(self) -> (c: Content)
        ensures
            c@ == bare_view(ElementView::Emph(Box::new(content_view(*self.0)))),
    {
        Content { elem: Element::Emph(self), styles: Vec::new() }
    }
}

impl TextNode {
    /// Packs the typed instance into an opaque content value with an
    /// empty style-scope chain.
    pub fn pack(self) -> (c: Content)
        ensures
            c@ == bare_view(ElementView::Text(self.0@)),
    {
        Content { elem: Element::Text(self), styles: Vec::new() }
    }
}

/// Copies a style-scope list element for element.
fn copy_entries(v: &Vec<StyleEntry>) -> (r: Vec<StyleEntry>)
    ensures
        r@ == v@,
{
    let mut r: Vec<StyleEntry> = Vec::new();
    let mut i: usize = 0;
    proof {
        assert(v@.subrange(0, 0) =~= Seq::<StyleEntry>::empty());
    }
    while i < v.len()
        invariant
            i <= v@.len(),
            r@ == v@.subrange(0, i as int),
        decreases v@.len() - i,
    {
        r.push(v[i]);
        proof {
            assert(v@.subrange(0, i + 1) =~= v@.subrange(0, i as int).push(v@[i as int]));
        }
        i = i + 1;
    }
    proof {
        assert(v@.subrange(0, v@.len() as int) =~= v@);
    }
    r
}

impl crate::styles::StyleChain {
    /// The chain at a point inside the given content value: this chain
    /// with the content's own scopes entered, innermost last.
    pub fn enter(&self, c: &Content) -> (r: crate::styles::StyleChain)
        ensures
            r@ == self@ + c@.styles,
    {
        let mut entries = copy_entries(&self.entries);
        let mut i: usize = 0;
        proof {
            assert(self.entries@ + c.styles@.subrange(0, 0) =~= self.entries@);
        }
        while i < c.styles.len()
            invariant
                i <= c.styles@.len(),
                entries@ == self.entries@ + c.styles@.subrange(0, i as int),
            decreases c.styles@.len() - i,
        {
            entries.push(c.styles[i]);
            proof {
                assert(self.entries@ + c.styles@.subrange(0, i + 1) =~= (self.entries@
                    + c.styles@.subrange(0, i as int)).push(c.styles@[i as int]));
            }
            i = i + 1;
        }
        proof {
            assert(self.entries@ + c.styles@.subrange(0, c.styles@.len() as int) =~= self.entries@
                + c.styles@);
        }
        crate::styles::StyleChain { entries }
    }
}

/// Clones an element instance; the copy models the same element.
fn clone_element(e: &Element) -> (r: Element)
    ensures
        element_view(r) == element_view(*e),
    decreases *e,
{
    match e {
        Element::Text(t) => Element::Text(TextNode(t.0.clone())),
        Element::Space(_) => Element::Space(SpaceNode),
        Element::Linebreak(l) => Element::Linebreak(LinebreakNode { justify: l.justify }),
        Element::Strong(n) => Element::Strong(StrongNode(Box::new(clone_content(&*n.0)))),
        Element::Emph(n) => Element::Emph(EmphNode(Box::new(clone_content(&*n.0)))),
    }
}

/// Clones a content value; the copy models the same content value.
fn clone_content(c: &Content) -> (r: Content)
    ensures
        r@ == c@,
    decreases *c,
{
    Content { elem: clone_element(&c.elem), styles: copy_entries(&c.styles) }
}

impl Clone for Content {
    /// A structural copy that models the same content value.
    fn clone(&self) -> (r: Content)
        ensures
            r@ == self@,
    {
        clone_content(self)
    }
}

} // verus!
