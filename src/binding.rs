//! Parsing a whole binding, and the result handed to callers.
use vstd::prelude::*;
use crate::ast::{AnyNode, Path, anys_view};
use crate::chars::{chars_of, string_of};
use crate::grammar::{ParseError, all_well_formed, parse_spec};
use crate::laws::lemma_parse_well_formed;
use crate::parser::{ParsingState, nodes_out};

verus! {

broadcast use vstd::std_specs::vec::group_vec_axioms;

/// `r` is what parsing `raw` yields, with its nodes in mathematical form.
pub open spec fn parsed_as(raw: Seq<char>, r: Result<Vec<AnyNode>, ParseError>) -> bool {
    nodes_out(r) == parse_spec(raw)
}

/// The characters of `c`.
pub open spec fn char_text(c: char) -> Seq<char> {
    seq![c]
}

/// The description of an error that callers are given.
pub open spec fn message(e: ParseError) -> Seq<char> {
    match e {
        ParseError::Mismatch { expected, found } => match found {
            Some(c) => "Expected '"@ + char_text(expected) + "' but found '"@ + char_text(c) + "'"@,
            None => "Expected '"@ + char_text(expected) + "' but found end of input"@,
        },
        ParseError::UnexpectedCharacter(c) => "Unexpected character: '"@ + char_text(c) + "'"@,
        ParseError::MissingIdentifier => "Expected identifier"@,
    }
}

fn push_text(v: &mut Vec<char>, s: &str)
    ensures
        final(v)@ == old(v)@ + s@,
{
    let mut t = chars_of(s);
    v.append(&mut t);
}

impl ParseError {
    /// A human-readable description of the error.
    pub fn message(&self) -> (r: String)
        ensures
            r@ == message(*self),
    {
        let mut v: Vec<char> = Vec::new();
        match *self {
            ParseError::Mismatch { expected, found } => {
                push_text(&mut v, "Expected '");
                v.push(expected);
                match found {
                    Some(c) => {
                        push_text(&mut v, "' but found '");
                        v.push(c);
                        push_text(&mut v, "'");
                    },
                    None => push_text(&mut v, "' but found end of input"),
                }
            },
            ParseError::UnexpectedCharacter(c) => {
                push_text(&mut v, "Unexpected character: '");
                v.push(c);
                push_text(&mut v, "'");
            },
            ParseError::MissingIdentifier => push_text(&mut v, "Expected identifier"),
        }
        assert(v@ =~= message(*self));
        string_of(&v)
    }
}

/// A successful parse, as handed to callers.
#[derive(Debug, PartialEq)]
pub struct ParserSuccess {
    pub path: Path,
    pub success: bool,
}

impl ParserSuccess {
    pub fn new(path: Path) -> (r: ParserSuccess)
        ensures
            r == (ParserSuccess { path, success: true }),
    {
        ParserSuccess { path, success: true }
    }
}

/// A failed parse, as handed to callers.
#[derive(Debug, PartialEq)]
pub struct ParserError {
    pub error: String,
    pub success: bool,
}

impl ParserError {
    pub fn new(error: String) -> (r: ParserError)
        ensures
            r == (ParserError { error, success: false }),
    {
        ParserError { error, success: false }
    }
}

/// The tagged result of parsing a binding.
#[derive(Debug, PartialEq)]
pub enum ParserResult {
    Success(ParserSuccess),
    Error(ParserError),
}

/// Parses a whole binding into its path's nodes, or the first error met.
pub fn try_parse(raw_binding: &str) -> (r: Result<Path, ParseError>)
    ensures
        parsed_as(raw_binding@, r),
        r is Ok ==> all_well_formed(anys_view(r->Ok_0@)),
{
    proof {
        lemma_parse_well_formed(raw_binding@);
    }
    let mut state = ParsingState::new(raw_binding);
    let path = match state.parse_path(true) {
        Ok(p) => p,
        Err(e) => return Err(e),
    };
    match state.current() {
        Some(c) => Err(ParseError::UnexpectedCharacter(c)),
        None => Ok(path.path),
    }
}

/// Parses a whole binding into its path's nodes, or a description of the first error met.
pub fn parse_binding(raw_binding: &str) -> (r: Result<Path, String>)
    ensures
        match parse_spec(raw_binding@) {
            Ok(nodes) => r is Ok && anys_view(r->Ok_0@) == nodes,
            Err(e) => r is Err && r->Err_0@ == message(e),
        },
        r is Ok ==> all_well_formed(anys_view(r->Ok_0@)),
{
    match try_parse(raw_binding) {
        Ok(path) => Ok(path),
        Err(e) => Err(e.message()),
    }
}

/// Parses a whole binding into the tagged result handed to callers.
pub fn parse_result(raw_binding: &str) -> (r: ParserResult)
    ensures
        match parse_spec(raw_binding@) {
            Ok(nodes) => r is Success && r->Success_0.success
                && anys_view(r->Success_0.path@) == nodes,
            Err(e) => r is Error && !r->Error_0.success && r->Error_0.error@ == message(e),
        },
{
    match parse_binding(raw_binding) {
        Ok(path) => ParserResult::Success(ParserSuccess::new(path)),
        Err(e) => ParserResult::Error(ParserError::new(e)),
    }
}

} // verus!
