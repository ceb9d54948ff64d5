//! Typed, source-located errors.
//!
//! All three kinds are detected synchronously during construction or
//! coercion and returned to the immediate caller; this core never
//! recovers from or retries them.

use vstd::prelude::*;

verus! {

/// An error raised while validating or coercing constructor arguments.
#[derive(Debug)]
pub enum SourceError {
    /// A required positional or named constructor parameter was not
    /// supplied. Carries the parameter's name and the span of the call.
    MissingArgument { name: String, span: u64 },
    /// A supplied value's dynamic type matches no admissible shape of
    /// the target semantic type. Carries the expected and actual type
    /// descriptions and the value's source position.
    TypeMismatch { expected: String, actual: String, span: u64 },
    /// A named argument was supplied that the target element kind does
    /// not declare. Carries the offending name and its source position.
    UnknownNamed { name: String, span: u64 },
}

/// The mathematical model of an error value.
#[verifier::ext_equal]
pub ghost enum ErrorView {
    MissingArgument { name: Seq<char>, span: u64 },
    TypeMismatch { expected: Seq<char>, actual: Seq<char>, span: u64 },
    UnknownNamed { name: Seq<char>, span: u64 },
}

/// The model of an error value.
pub open spec fn error_view(e: SourceError) -> ErrorView {
    match e {
        SourceError::MissingArgument { name, span } => ErrorView::MissingArgument {
            name: name@,
            span,
        },
        SourceError::TypeMismatch { expected, actual, span } => ErrorView::TypeMismatch {
            expected: expected@,
            actual: actual@,
            span,
        },
        SourceError::UnknownNamed { name, span } => ErrorView::UnknownNamed { name: name@, span },
    }
}

impl View for SourceError {
    type V = ErrorView;

    open spec fn view(&self) -> ErrorView {
        error_view(*self)
    }
}

} // verus!
