//! Dynamically typed values and coercion to constructor target types.
//!
//! Constructor arguments arrive loosely typed from the script
//! evaluator. Coercion rules are declared per target type as an ordered
//! list of admissible source-value shapes; an unmatched shape is always
//! an error, never a default.

use vstd::prelude::*;

use crate::content::{content_view, Content, ContentView};
use crate::errors::{ErrorView, SourceError};
use crate::styles::Delta;

verus! {

/// A dynamically typed value supplied by the script evaluator.
#[derive(Debug)]
pub enum Value {
    Bool(bool),
    Int(i64),
    Str(String),
    Content(Content),
}

/// The mathematical model of a dynamic value.
#[verifier::ext_equal]
pub ghost enum ValueView {
    Bool(bool),
    Int(int),
    Str(Seq<char>),
    Content(ContentView),
}

/// The model of a dynamic value.
pub open spec fn value_view(v: Value) -> ValueView {
    match v {
        Value::Bool(b) => ValueView::Bool(b),
        Value::Int(i) => ValueView::Int(i as int),
        Value::Str(s) => ValueView::Str(s@),
        Value::Content(c) => ValueView::Content(content_view(c)),
    }
}

impl View for Value {
    type V = ValueView;

    open spec fn view(&self) -> ValueView {
        value_view(*self)
    }
}

/// The name of a value's dynamic type, as error messages describe it.
pub open spec fn type_name_of(v: ValueView) -> Seq<char> {
    match v {
        ValueView::Bool(_) => "boolean"@,
        ValueView::Int(_) => "integer"@,
        ValueView::Str(_) => "string"@,
        ValueView::Content(_) => "content"@,
    }
}

impl Value {
    /// The name of this value's dynamic type.
    pub fn type_label(&self) -> (r: &'static str)
        ensures
            r@ == type_name_of(self@),
    {
        match self {
            Value::Bool(_) => "boolean",
            Value::Int(_) => "integer",
            Value::Str(_) => "string",
            Value::Content(_) => "content",
        }
    }
}

/// Relies on str's `PartialEq`: two string slices compare equal exactly
/// when they consist of the same characters.
#[verifier::external_body]
pub(crate) fn str_eq(a: &str, b: &str) -> (r: bool)
    ensures
        r == (a@ == b@),
{
    a == b
}

/// The type-mismatch error that coercion to the given target raises
/// for the given value.
pub open spec fn mismatch(expected: Seq<char>, v: ValueView, span: u64) -> ErrorView {
    ErrorView::TypeMismatch { expected, actual: type_name_of(v), span }
}

/// Coerces a value to a boolean flag. The one admissible shape is a
/// boolean value.
pub fn coerce_bool(v: Value, span: u64) -> (r: Result<bool, SourceError>)
    ensures
        match r {
            Ok(b) => v@ == ValueView::Bool(b),
            Err(e) => !(v@ matches ValueView::Bool(_)) && e@ == mismatch("boolean"@, v@, span),
        },
{
    match v {
        Value::Bool(b) => Ok(b),
        other => Err(
            SourceError::TypeMismatch {
                expected: "boolean".to_owned(),
                actual: other.type_label().to_owned(),
                span,
            },
        ),
    }
}

/// Coerces a value to a content body. The one admissible shape is a
/// content value.
pub fn coerce_content(v: Value, span: u64) -> (r: Result<Content, SourceError>)
    ensures
        match r {
            Ok(c) => v@ == ValueView::Content(c@),
            Err(e) => !(v@ matches ValueView::Content(_)) && e@ == mismatch("content"@, v@, span),
        },
{
    match v {
        Value::Content(c) => Ok(c),
        other => Err(
            SourceError::TypeMismatch {
                expected: "content".to_owned(),
                actual: other.type_label().to_owned(),
                span,
            },
        ),
    }
}

/// Coerces a value to a font-weight delta: an integer is wrapped
/// directly, and nothing else is admissible.
pub fn coerce_delta(v: Value, span: u64) -> (r: Result<Delta, SourceError>)
    ensures
        match r {
            Ok(d) => v@ == ValueView::Int(d.0 as int),
            Err(e) => !(v@ matches ValueView::Int(_)) && e@ == mismatch("integer"@, v@, span),
        },
{
    match v {
        Value::Int(i) => Ok(Delta(i)),
        other => Err(
            SourceError::TypeMismatch {
                expected: "integer".to_owned(),
                actual: other.type_label().to_owned(),
                span,
            },
        ),
    }
}

} // verus!
