//! Case transformations on text and the case-change calls.
//!
//! `lower` and `upper` take one positional argument that is either a
//! raw text value — transformed directly — or a content value, which
//! is wrapped in a case-transform style scope rather than mutated.
//! `smallcaps` wraps a content body in a scope that sets the
//! small-capitals flag.

use vstd::prelude::*;

use crate::args::{ArgView, Args};
use crate::content::styled_view;
use crate::errors::{ErrorView, SourceError};
use crate::nodes::{body_scan, take_body};
use crate::styles::StyleEntry;
use crate::value::{mismatch, Value, ValueView};

verus! {

/// A case transformation on text.
#[derive(Debug, Clone, Copy, PartialEq, Eq, Structural, Hash)]
pub enum Case {
    /// Everything is lowercased.
    Lower,
    /// Everything is uppercased.
    Upper,
}

/// The lowercase equivalent of a character sequence, as Unicode
/// defines it; a function of the characters alone.
pub uninterp spec fn lower_of(s: Seq<char>) -> Seq<char>;

/// The uppercase equivalent of a character sequence, as Unicode
/// defines it; a function of the characters alone.
pub uninterp spec fn upper_of(s: Seq<char>) -> Seq<char>;

/// Relies on str::to_lowercase: the returned string is the lowercase
/// equivalent of the input and depends on its characters alone.
#[verifier::external_body]
fn to_lowercase(s: &str) -> (r: String)
    ensures
        r@ == lower_of(s@),
        s@.len() == 0 ==> r@.len() == 0,
{
    s.to_lowercase()
}

/// Relies on str::to_uppercase: the returned string is the uppercase
/// equivalent of the input and depends on its characters alone.
#[verifier::external_body]
fn to_uppercase(s: &str) -> (r: String)
    ensures
        r@ == upper_of(s@),
        s@.len() == 0 ==> r@.len() == 0,
{
    s.to_uppercase()
}

/// What applying a case transformation yields on a character sequence.
pub open spec fn case_applied(c: Case, s: Seq<char>) -> Seq<char> {
    match c {
        Case::Lower => lower_of(s),
        Case::Upper => upper_of(s),
    }
}

impl Case {
    /// Applies the case to a string.
    pub fn apply(self, text: &str) -> (r: String)
        ensures
            r@ == case_applied(self, text@),
    {
        match self {
            Case::Lower => to_lowercase(text),
            Case::Upper => to_uppercase(text),
        }
    }
}

/// Outcome of scanning a case-change call's arguments: the first
/// positional value, which must be text or content; the call declares
/// no named parameters.
pub open spec fn to_case_scan(
    items: Seq<ArgView>,
    found: Option<ValueView>,
    call_span: u64,
) -> Result<ValueView, ErrorView>
    decreases items.len(),
{
    if items.len() == 0 {
        match found {
            Some(v) => Ok(v),
            None => Err(ErrorView::MissingArgument { name: "string or content"@, span: call_span }),
        }
    } else {
        let a = items.first();
        let rest = items.drop_first();
        match a.name {
            Some(n) => Err(ErrorView::UnknownNamed { name: n, span: a.span }),
            None => if found is Some {
                to_case_scan(rest, found, call_span)
            } else {
                match a.value {
                    ValueView::Str(s) => to_case_scan(rest, Some(ValueView::Str(s)), call_span),
                    ValueView::Content(c) => to_case_scan(
                        rest,
                        Some(ValueView::Content(c)),
                        call_span,
                    ),
                    v => Err(mismatch("string or content"@, v, a.span)),
                }
            },
        }
    }
}

/// The outcome of a case-change call: a text argument is transformed
/// directly, a content argument is wrapped in a case-transform scope.
pub open spec fn case_outcome(cs: Case, args: crate::args::ArgsView) -> Result<
    ValueView,
    ErrorView,
> {
    match to_case_scan(args.items, None, args.span) {
        Ok(v) => match v {
            ValueView::Str(s) => Ok(ValueView::Str(case_applied(cs, s))),
            ValueView::Content(c) => Ok(
                ValueView::Content(styled_view(c, StyleEntry::CaseTransform(Some(cs)))),
            ),
            _ => Ok(v),
        },
        Err(e) => Err(e),
    }
}

/// The model of an exec `Option<Value>` accumulator.
pub open spec fn found_value_view(found: Option<Value>) -> Option<ValueView> {
    match found {
        Some(v) => Some(v@),
        None => None,
    }
}

/// Changes the case of text: the one positional argument is either a
/// raw text value, transformed directly, or a content value, wrapped
/// in a case-transform style scope rather than mutated.
pub fn case(cs: Case, args: &Args) -> (r: Result<Value, SourceError>)
    ensures
        match r {
            Ok(v) => case_outcome(cs, args@) == Ok::<ValueView, ErrorView>(v@),
            Err(e) => case_outcome(cs, args@) == Err::<ValueView, ErrorView>(e@),
        },
{
    let ghost full = args@.items;
    let ghost span = args@.span;
    let mut found: Option<Value> = None;
    let n: usize = args.items.len();
    let mut i: usize = 0;
    proof {
        assert(full.skip(0) =~= full);
    }
    while i < n
        invariant
            i <= n,
            n == args.items@.len(),
            full == args@.items,
            span == args@.span,
            to_case_scan(full, None, span) == to_case_scan(
                full.skip(i as int),
                found_value_view(found),
                span,
            ),
            found matches Some(v) ==> (v@ matches ValueView::Str(_) || v@
                matches ValueView::Content(_)),
        decreases n - i,
    {
        let a = &args.items[i];
        proof {
            assert(full[i as int] == args.items@[i as int]@);
            assert(full.skip(i as int).first() == full[i as int]);
            assert(full.skip(i as int).drop_first() =~= full.skip(i as int + 1));
        }
        match &a.name {
            Some(name) => {
                return Err(SourceError::UnknownNamed { name: name.clone(), span: a.span });
            },
            None => {
                if found.is_none() {
                    match &a.value {
                        Value::Str(s) => {
                            found = Some(Value::Str(s.clone()));
                        },
                        Value::Content(c) => {
                            found = Some(Value::Content(c.clone()));
                        },
                        v => {
                            return Err(
                                SourceError::TypeMismatch {
                                    expected: "string or content".to_owned(),
                                    actual: v.type_label().to_owned(),
                                    span: a.span,
                                },
                            );
                        },
                    }
                }
            },
        }
        i = i + 1;
    }
    proof {
        assert(full.skip(n as int) =~= Seq::<ArgView>::empty());
    }
    match found {
        Some(Value::Str(s)) => Ok(Value::Str(cs.apply(s.as_str()))),
        Some(Value::Content(c)) => Ok(
            Value::Content(c.styled(StyleEntry::CaseTransform(Some(cs)))),
        ),
        Some(v) => {
            proof {
                assert(false);
            }
            Ok(v)
        },
        None => Err(
            SourceError::MissingArgument { name: "string or content".to_owned(), span: args.span },
        ),
    }
}

/// Converts text or content to lowercase.
pub fn lower(args: &Args) -> (r: Result<Value, SourceError>)
    ensures
        match r {
            Ok(v) => case_outcome(Case::Lower, args@) == Ok::<ValueView, ErrorView>(v@),
            Err(e) => case_outcome(Case::Lower, args@) == Err::<ValueView, ErrorView>(e@),
        },
{
    case(Case::Lower, args)
}

/// Converts text or content to uppercase.
pub fn upper(args: &Args) -> (r: Result<Value, SourceError>)
    ensures
        match r {
            Ok(v) => case_outcome(Case::Upper, args@) == Ok::<ValueView, ErrorView>(v@),
            Err(e) => case_outcome(Case::Upper, args@) == Err::<ValueView, ErrorView>(e@),
        },
{
    case(Case::Upper, args)
}

/// The outcome of a small-capitals call on the given arguments.
pub open spec fn smallcaps_outcome(args: crate::args::ArgsView) -> Result<
    crate::content::ContentView,
    ErrorView,
> {
    body_scan(args.items, None, "content"@, args.span)
}

/// Displays content in small capitals: wraps the one positional
/// content body in a scope that sets the small-capitals flag.
pub fn smallcaps(args: &Args) -> (r: Result<Value, SourceError>)
    ensures
        match r {
            Ok(v) => smallcaps_outcome(args@) matches Ok(b) && v@ == ValueView::Content(
                styled_view(b, StyleEntry::Smallcaps(true)),
            ),
            Err(e) => smallcaps_outcome(args@) == Err::<crate::content::ContentView, ErrorView>(e@),
        },
{
    match take_body(args, "content") {
        Ok(body) => Ok(Value::Content(body.styled(StyleEntry::Smallcaps(true)))),
        Err(e) => Err(e),
    }
}

} // verus!
