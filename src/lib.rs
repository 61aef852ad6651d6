//! Parser for binding paths: dotted segments, bracketed key/value clauses,
//! quoted literal keys, `{identifier}` expressions and `{{ ... }}` nested paths.
use vstd::prelude::*;

pub mod ast;
pub mod binding;
pub mod chars;
pub mod grammar;
pub mod laws;
pub mod parser;

pub use ast::{
    AnyNode, ConcatableNode, ConcatenatedNode, ConcatenatedResult, ExpressionNode, Path, PathNode,
    QueryNode, ValueNode, ValueNodeValue,
};
pub use binding::{parse_binding, parse_result, try_parse, ParserError, ParserResult, ParserSuccess};
pub use grammar::ParseError;

verus! {

} // verus!
