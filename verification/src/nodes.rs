//! Construction, introspection and capabilities of the element kinds.
//!
//! `construct` validates a supplied argument list against the kind's
//! declared parameter list, scanning the items in order: required
//! positional parameters must be present, named parameters may be
//! omitted and take their declared default, and a named argument the
//! kind does not declare is an error naming it. A surplus positional
//! argument beyond the declared ones is ignored, and of several
//! occurrences of one named parameter the first counts. Construction
//! is all-or-nothing: it yields a packed content value with an empty
//! style-scope chain, or the first error the scan meets.
//!
//! `field` is read-only introspection by name; it never mutates.

use vstd::prelude::*;

use crate::args::{ArgView, Args};
use crate::content::{
    bare_view, content_view, element_view, styled_view, Content, ContentView, Element,
    ElementView, EmphNode, LinebreakNode, SpaceNode, StrongNode,
};
use crate::errors::{ErrorView, SourceError};
use crate::flow::Behaviour;
use crate::styles::{resolve_strong_delta, Delta, StyleChain, StyleEntry, Toggle};
use crate::value::{mismatch, str_eq, Value, ValueView};

verus! {

/// The named, publicly exposed attributes of an element instance, as
/// `field` reports them.
pub open spec fn field_of(e: ElementView, name: Seq<char>) -> Option<ValueView> {
    match e {
        ElementView::Linebreak { justify } => if name == "justify"@ {
            Some(ValueView::Bool(justify))
        } else {
            None
        },
        ElementView::Strong(b) => if name == "body"@ {
            Some(ValueView::Content(*b))
        } else {
            None
        },
        ElementView::Emph(b) => if name == "body"@ {
            Some(ValueView::Content(*b))
        } else {
            None
        },
        _ => None,
    }
}

/// Outcome of validating a call that declares no parameters at all:
/// the first named argument is unknown.
pub open spec fn space_scan(items: Seq<ArgView>) -> Result<(), ErrorView>
    decreases items.len(),
{
    if items.len() == 0 {
        Ok(())
    } else {
        match items.first().name {
            Some(n) => Err(ErrorView::UnknownNamed { name: n, span: items.first().span }),
            None => space_scan(items.drop_first()),
        }
    }
}

/// The outcome of `SpaceNode::construct` on the given arguments.
pub open spec fn space_outcome(args: crate::args::ArgsView) -> Result<(), ErrorView> {
    space_scan(args.items)
}

/// Outcome of validating a linebreak call: the effective `justify`
/// flag, or the first error the scan meets.
pub open spec fn linebreak_scan(items: Seq<ArgView>, justify: bool, seen: bool) -> Result<
    bool,
    ErrorView,
>
    decreases items.len(),
{
    if items.len() == 0 {
        Ok(justify)
    } else {
        let a = items.first();
        let rest = items.drop_first();
        match a.name {
            None => linebreak_scan(rest, justify, seen),
            Some(n) => if n != "justify"@ {
                Err(ErrorView::UnknownNamed { name: n, span: a.span })
            } else if seen {
                linebreak_scan(rest, justify, seen)
            } else {
                match a.value {
                    ValueView::Bool(b) => linebreak_scan(rest, b, true),
                    v => Err(mismatch("boolean"@, v, a.span)),
                }
            },
        }
    }
}

/// The outcome of `LinebreakNode::construct` on the given arguments.
pub open spec fn linebreak_outcome(args: crate::args::ArgsView) -> Result<bool, ErrorView> {
    linebreak_scan(args.items, false, false)
}

/// Outcome of scanning for one required positional content body while
/// rejecting every named argument.
pub open spec fn body_scan(
    items: Seq<ArgView>,
    found: Option<ContentView>,
    param: Seq<char>,
    call_span: u64,
) -> Result<ContentView, ErrorView>
    decreases items.len(),
{
    if items.len() == 0 {
        match found {
            Some(c) => Ok(c),
            None => Err(ErrorView::MissingArgument { name: param, span: call_span }),
        }
    } else {
        let a = items.first();
        let rest = items.drop_first();
        match a.name {
            Some(n) => Err(ErrorView::UnknownNamed { name: n, span: a.span }),
            None => if found is Some {
                body_scan(rest, found, param, call_span)
            } else {
                match a.value {
                    ValueView::Content(c) => body_scan(rest, Some(c), param, call_span),
                    v => Err(mismatch("content"@, v, a.span)),
                }
            },
        }
    }
}

/// The outcome of `StrongNode::construct` on the given arguments.
pub open spec fn strong_outcome(args: crate::args::ArgsView) -> Result<ContentView, ErrorView> {
    body_scan(args.items, None, "body"@, args.span)
}

/// The outcome of `EmphNode::construct` on the given arguments.
pub open spec fn emph_outcome(args: crate::args::ArgsView) -> Result<ContentView, ErrorView> {
    body_scan(args.items, None, "body"@, args.span)
}

/// The model of an exec `Option<Content>` accumulator.
pub open spec fn found_view(found: Option<Content>) -> Option<ContentView> {
    match found {
        Some(c) => Some(content_view(c)),
        None => None,
    }
}

/// Takes the one required positional content body of a call that
/// declares no named parameters, validating the whole argument list.
pub(crate) fn take_body(args: &Args, param: &'static str) -> (r: Result<Content, SourceError>)
    ensures
        match r {
            Ok(c) => body_scan(args@.items, None, param@, args@.span) == Ok::<
                ContentView,
                ErrorView,
            >(c@),
            Err(e) => body_scan(args@.items, None, param@, args@.span) == Err::<
                ContentView,
                ErrorView,
            >(e@),
        },
{
    let ghost full = args@.items;
    let ghost span = args@.span;
    let mut found: Option<Content> = None;
    let n: usize = args.items.len();
    let mut i: usize = 0;
    proof {
        assert(full.skip(0) =~= full);
    }
    while i < n
        invariant
            i <= n,
            n == args.items@.len(),
            full == args@.items,
            span == args@.span,
            body_scan(full, None, param@, span) == body_scan(
                full.skip(i as int),
                found_view(found),
                param@,
                span,
            ),
        decreases n - i,
    {
        let a = &args.items[i];
        proof {
            assert(full[i as int] == args.items@[i as int]@);
            assert(full.skip(i as int).first() == full[i as int]);
            assert(full.skip(i as int).drop_first() =~= full.skip(i as int + 1));
        }
        match &a.name {
            Some(name) => {
                return Err(SourceError::UnknownNamed { name: name.clone(), span: a.span });
            },
            None => {
                if found.is_none() {
                    match &a.value {
                        Value::Content(c) => {
                            found = Some(c.clone());
                        },
                        v => {
                            return Err(
                                SourceError::TypeMismatch {
                                    expected: "content".to_owned(),
                                    actual: v.type_label().to_owned(),
                                    span: a.span,
                                },
                            );
                        },
                    }
                }
            },
        }
        i = i + 1;
    }
    proof {
        assert(full.skip(n as int) =~= Seq::<ArgView>::empty());
    }
    match found {
        Some(c) => Ok(c),
        None => Err(SourceError::MissingArgument { name: param.to_owned(), span: args.span }),
    }
}

impl SpaceNode {
    /// Construct: a space takes no arguments; a named argument is
    /// unknown and rejected.
    pub fn construct(args: &Args) -> (r: Result<Content, SourceError>)
        ensures
            match r {
                Ok(c) => space_outcome(args@) is Ok && c@ == bare_view(ElementView::Space),
                Err(e) => space_outcome(args@) == Err::<(), ErrorView>(e@),
            },
    {
        let ghost full = args@.items;
        let n: usize = args.items.len();
        let mut i: usize = 0;
        proof {
            assert(full.skip(0) =~= full);
        }
        while i < n
            invariant
                i <= n,
                n == args.items@.len(),
                full == args@.items,
                space_scan(full) == space_scan(full.skip(i as int)),
            decreases n - i,
        {
            let a = &args.items[i];
            proof {
                assert(full[i as int] == args.items@[i as int]@);
                assert(full.skip(i as int).first() == full[i as int]);
                assert(full.skip(i as int).drop_first() =~= full.skip(i as int + 1));
            }
            if let Some(name) = &a.name {
                return Err(SourceError::UnknownNamed { name: name.clone(), span: a.span });
            }
            i = i + 1;
        }
        proof {
            assert(full.skip(n as int) =~= Seq::<ArgView>::empty());
        }
        Ok(SpaceNode.pack())
    }

    /// Flow-behaviour capability: a space is weak with fixed priority
    /// `2`, so an explicit wider-space request of higher priority can
    /// suppress it when the two become adjacent.
    pub fn behaviour(&self) -> (b: Behaviour)
        ensures
            b == Behaviour::Weak(2),
    {
        Behaviour::Weak(2)
    }
}

impl LinebreakNode {
    /// Construct: one named parameter `justify`, a boolean defaulting
    /// to `false` when omitted.
    pub fn construct(args: &Args) -> (r: Result<Content, SourceError>)
        ensures
            match r {
                Ok(c) => linebreak_outcome(args@) matches Ok(j) && c@ == bare_view(
                    ElementView::Linebreak { justify: j },
                ),
                Err(e) => linebreak_outcome(args@) == Err::<bool, ErrorView>(e@),
            },
    {
        let ghost full = args@.items;
        let mut justify = false;
        let mut seen = false;
        let n: usize = args.items.len();
        let mut i: usize = 0;
        proof {
            assert(full.skip(0) =~= full);
        }
        while i < n
            invariant
                i <= n,
                n == args.items@.len(),
                full == args@.items,
                linebreak_scan(full, false, false) == linebreak_scan(
                    full.skip(i as int),
                    justify,
                    seen,
                ),
            decreases n - i,
        {
            let a = &args.items[i];
            proof {
                assert(full[i as int] == args.items@[i as int]@);
                assert(full.skip(i as int).first() == full[i as int]);
                assert(full.skip(i as int).drop_first() =~= full.skip(i as int + 1));
            }
            if let Some(name) = &a.name {
                if !str_eq(name.as_str(), "justify") {
                    return Err(SourceError::UnknownNamed { name: name.clone(), span: a.span });
                } else if !seen {
                    match &a.value {
                        Value::Bool(b) => {
                            justify = *b;
                            seen = true;
                        },
                        v => {
                            return Err(
                                SourceError::TypeMismatch {
                                    expected: "boolean".to_owned(),
                                    actual: v.type_label().to_owned(),
                                    span: a.span,
                                },
                            );
                        },
                    }
                }
            }
            i = i + 1;
        }
        proof {
            assert(full.skip(n as int) =~= Seq::<ArgView>::empty());
        }
        Ok(LinebreakNode { justify }.pack())
    }

    /// Field: `justify` is the one publicly exposed attribute.
    pub fn field(&self, name: &str) -> (r: Option<Value>)
        ensures
            match r {
                Some(v) => field_of(ElementView::Linebreak { justify: self.justify }, name@)
                    == Some(v@),
                None => field_of(ElementView::Linebreak { justify: self.justify }, name@) is None,
            },
    {
        if str_eq(name, "justify") {
            Some(Value::Bool(self.justify))
        } else {
            None
        }
    }

    /// Flow-behaviour capability: a line break is a hard,
    /// order-significant break point.
    pub fn behaviour(&self) -> (b: Behaviour)
        ensures
            b == Behaviour::Destructive,
    {
        Behaviour::Destructive
    }
}

impl StrongNode {
    /// Construct: one required positional parameter `body`, a content
    /// value.
    pub fn construct(args: &Args) -> (r: Result<Content, SourceError>)
        ensures
            match r {
                Ok(c) => strong_outcome(args@) matches Ok(b) && c@ == bare_view(
                    ElementView::Strong(Box::new(b)),
                ),
                Err(e) => strong_outcome(args@) == Err::<ContentView, ErrorView>(e@),
            },
    {
        match take_body(args, "body") {
            Ok(body) => Ok(StrongNode(Box::new(body)).pack()),
            Err(e) => Err(e),
        }
    }

    /// Field: `body` is the one publicly exposed attribute.
    pub fn field(&self, name: &str) -> (r: Option<Value>)
        ensures
            match r {
                Some(v) => field_of(
                    ElementView::Strong(Box::new(content_view(*self.0))),
                    name@,
                ) == Some(v@),
                None => field_of(
                    ElementView::Strong(Box::new(content_view(*self.0))),
                    name@,
                ) is None,
            },
    {
        if str_eq(name, "body") {
            Some(Value::Content((*self.0).clone()))
        } else {
            None
        }
    }

    /// Render-transform capability: strong emphasis rewrites itself
    /// into its body carrying one more scope that folds the effective
    /// strong delta into the font weight.
    pub fn show(&self, styles: &StyleChain) -> (r: Content)
        ensures
            r@ == styled_view(
                content_view(*self.0),
                StyleEntry::FontDelta(Delta(resolve_strong_delta(styles@))),
            ),
    {
        let d: i64 = styles.get_strong_delta();
        (*self.0).clone().styled(StyleEntry::FontDelta(Delta(d)))
    }
}

impl EmphNode {
    /// Construct: one required positional parameter `body`, a content
    /// value.
    pub fn construct(args: &Args) -> (r: Result<Content, SourceError>)
        ensures
            match r {
                Ok(c) => emph_outcome(args@) matches Ok(b) && c@ == bare_view(
                    ElementView::Emph(Box::new(b)),
                ),
                Err(e) => emph_outcome(args@) == Err::<ContentView, ErrorView>(e@),
            },
    {
        match take_body(args, "body") {
            Ok(body) => Ok(EmphNode(Box::new(body)).pack()),
            Err(e) => Err(e),
        }
    }

    /// Field: `body` is the one publicly exposed attribute.
    pub fn field(&self, name: &str) -> (r: Option<Value>)
        ensures
            match r {
                Some(v) => field_of(ElementView::Emph(Box::new(content_view(*self.0))), name@)
                    == Some(v@),
                None => field_of(
                    ElementView::Emph(Box::new(content_view(*self.0))),
                    name@,
                ) is None,
            },
    {
        if str_eq(name, "body") {
            Some(Value::Content((*self.0).clone()))
        } else {
            None
        }
    }

    /// Render-transform capability: emphasis rewrites itself into its
    /// body with a toggled italic-style scope added.
    pub fn show(&self, _styles: &StyleChain) -> (r: Content)
        ensures
            r@ == styled_view(content_view(*self.0), StyleEntry::Italic(Toggle)),
    {
        (*self.0).clone().styled(StyleEntry::Italic(Toggle))
    }
}

/// Label-exclusion capability: whether the element kind may not be the
/// target of a user-assigned label. Of the kinds here only the space
/// implements it.
pub open spec fn spec_unlabellable(e: ElementView) -> bool {
    e is Space
}

/// Whether this element is ineligible to carry a user-assigned label.
pub fn unlabellable(e: &Element) -> (r: bool)
    ensures
        r == spec_unlabellable(element_view(*e)),
{
    matches!(e, Element::Space(_))
}

/// The flow classification of an element instance, where its kind
/// implements the flow-behaviour capability.
pub open spec fn behaviour_of(e: ElementView) -> Option<Behaviour> {
    match e {
        ElementView::Space => Some(Behaviour::Weak(2)),
        ElementView::Linebreak { .. } => Some(Behaviour::Destructive),
        _ => None,
    }
}

impl Content {
    /// Field: the named, publicly exposed attribute of the element
    /// instance this content value carries, or `None` when the kind
    /// does not expose the name. Dispatch is a match over the kind
    /// tag; introspection never mutates.
    pub fn field(&self, name: &str) -> (r: Option<Value>)
        ensures
            match r {
                Some(v) => field_of(self@.elem, name@) == Some(v@),
                None => field_of(self@.elem, name@) is None,
            },
    {
        match &self.elem {
            Element::Linebreak(l) => l.field(name),
            Element::Strong(n) => n.field(name),
            Element::Emph(n) => n.field(name),
            _ => None,
        }
    }

    /// The flow classification of this content value, or `None` where
    /// its element kind does not implement the flow-behaviour
    /// capability.
    pub fn behaviour(&self) -> (r: Option<Behaviour>)
        ensures
            r == behaviour_of(self@.elem),
    {
        match &self.elem {
            Element::Space(s) => Some(s.behaviour()),
            Element::Linebreak(l) => Some(l.behaviour()),
            _ => None,
        }
    }

    /// Render-transform of this content value: the replacement the
    /// element produces under the given effective style chain, or
    /// `None` where its kind does not implement the render-transform
    /// capability and no further rewriting occurs.
    pub fn show(&self, styles: &StyleChain) -> (r: Option<Content>)
        ensures
            match self@.elem {
                ElementView::Strong(b) => r matches Some(c) && c@ == styled_view(
                    *b,
                    StyleEntry::FontDelta(Delta(resolve_strong_delta(styles@))),
                ),
                ElementView::Emph(b) => r matches Some(c) && c@ == styled_view(
                    *b,
                    StyleEntry::Italic(Toggle),
                ),
                _ => r is None,
            },
    {
        match &self.elem {
            Element::Strong(n) => Some(n.show(styles)),
            Element::Emph(n) => Some(n.show(styles)),
            _ => None,
        }
    }
}

/// Law: for every valid argument list, construction followed by field
/// access on the one declared field of a line break returns the
/// supplied `justify` value, or the declared default `false` when the
/// named argument was omitted.
pub proof fn lemma_linebreak_construct_then_field(args: crate::args::ArgsView)
    requires
        linebreak_outcome(args) is Ok,
    ensures
        field_of(
            ElementView::Linebreak { justify: linebreak_outcome(args)->Ok_0 },
            "justify"@,
        ) == Some(ValueView::Bool(linebreak_outcome(args)->Ok_0)),
{
}

/// Law: for every valid argument list, construction followed by field
/// access on the one declared field of a strong-emphasis element
/// returns the supplied body unchanged.
pub proof fn lemma_strong_construct_then_field(args: crate::args::ArgsView)
    requires
        strong_outcome(args) is Ok,
    ensures
        field_of(ElementView::Strong(Box::new(strong_outcome(args)->Ok_0)), "body"@) == Some(
            ValueView::Content(strong_outcome(args)->Ok_0),
        ),
{
}

/// Law: for every valid argument list, construction followed by field
/// access on the one declared field of an emphasis element returns the
/// supplied body unchanged.
pub proof fn lemma_emph_construct_then_field(args: crate::args::ArgsView)
    requires
        emph_outcome(args) is Ok,
    ensures
        field_of(ElementView::Emph(Box::new(emph_outcome(args)->Ok_0)), "body"@) == Some(
            ValueView::Content(emph_outcome(args)->Ok_0),
        ),
{
}

} // verus!
