//! Constructor argument lists.
//!
//! A constructor call supplies an ordered sequence of positional values
//! plus named values, each dynamically typed and source-located. The
//! constructors validate a whole list against their declared parameter
//! list, scanning the items in order.

use vstd::prelude::*;

use crate::value::{value_view, Value, ValueView};

verus! {

/// One supplied argument: positional when `name` is `None`, named
/// otherwise.
#[derive(Debug)]
pub struct Arg {
    pub name: Option<String>,
    pub value: Value,
    pub span: u64,
}

/// The mathematical model of one argument.
#[verifier::ext_equal]
pub ghost struct ArgView {
    pub name: Option<Seq<char>>,
    pub value: ValueView,
    pub span: u64,
}

/// The model of one argument.
pub open spec fn arg_view(a: Arg) -> ArgView {
    ArgView {
        name: match a.name {
            Some(n) => Some(n@),
            None => None,
        },
        value: value_view(a.value),
        span: a.span,
    }
}

impl View for Arg {
    type V = ArgView;

    open spec fn view(&self) -> ArgView {
        arg_view(*self)
    }
}

/// The argument list of one constructor call, with the span of the
/// whole call for reporting a missing argument.
#[derive(Debug)]
pub struct Args {
    pub items: Vec<Arg>,
    pub span: u64,
}

/// The mathematical model of an argument list.
#[verifier::ext_equal]
pub ghost struct ArgsView {
    pub items: Seq<ArgView>,
    pub span: u64,
}

impl View for Args {
    type V = ArgsView;

    open spec fn view(&self) -> ArgsView {
        ArgsView { items: self.items@.map_values(|a: Arg| arg_view(a)), span: self.span }
    }
}

impl Args {
    /// An empty argument list for a call at the given span.
    pub fn new(span: u64) -> (r: Args)
        ensures
            r@.items == Seq::<ArgView>::empty(),
            r@.span == span,
    {
        let r = Args { items: Vec::new(), span };
        proof {
            assert(r@.items =~= Seq::<ArgView>::empty());
        }
        r
    }

    /// Appends a positional argument.
    pub fn push_positional(&mut self, value: Value, span: u64)
        ensures
            final(self)@.items == old(self)@.items.push(
                ArgView { name: None, value: value@, span },
            ),
            final(self)@.span == old(self)@.span,
    {
        let ghost pre = self.items@;
        self.items.push(Arg { name: None, value, span });
        proof {
            assert(self@.items =~= pre.map_values(|a: Arg| arg_view(a)).push(
                ArgView { name: None, value: value@, span },
            ));
        }
    }

    /// Appends a named argument.
    pub fn push_named(&mut self, name: String, value: Value, span: u64)
        ensures
            final(self)@.items == old(self)@.items.push(
                ArgView { name: Some(name@), value: value@, span },
            ),
            final(self)@.span == old(self)@.span,
    {
        let ghost pre = self.items@;
        let ghost n = name@;
        self.items.push(Arg { name: Some(name), value, span });
        proof {
            assert(self@.items =~= pre.map_values(|a: Arg| arg_view(a)).push(
                ArgView { name: Some(n), value: value@, span },
            ));
        }
    }
}

} // verus!
