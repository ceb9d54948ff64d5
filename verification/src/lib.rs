//! Content and style core of a markup-to-document compiler.
//!
//! The crate represents parsed document elements as typed, composable
//! values ([`content::Content`]), attaches cascading presentation
//! properties to them ([`styles`]), and classifies how elements behave
//! when a linear stream of them is assembled into flowing text
//! ([`flow`]). Constructor arguments arrive loosely typed ([`value`],
//! [`args`]) and are coerced or rejected with a typed, source-located
//! error.

pub mod args;
pub mod casing;
pub mod content;
pub mod errors;
pub mod flow;
pub mod nodes;
pub mod styles;
pub mod value;

pub use args::{Arg, Args};
pub use casing::{case, lower, smallcaps, upper, Case};
pub use content::{Content, Element, EmphNode, LinebreakNode, SpaceNode, StrongNode, TextNode};
pub use errors::SourceError;
pub use flow::Behaviour;
pub use styles::{Delta, StyleChain, StyleEntry, Toggle};
pub use value::Value;
