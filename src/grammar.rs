//! The binding-path grammar as spec functions over the input characters.
//!
//! Each production reads the input `s` from position `i` and either does not
//! match there, matches and ends at a later position, or fails for good.
use vstd::prelude::*;
use crate::chars::{identifier_char, whitespace};

verus! {

/// Mathematical form of a node of the syntax tree.
pub enum Node {
    Path(Seq<Node>),
    Query(Box<Node>, Option<Box<Node>>),
    Value(Seq<char>),
    Expression(Seq<char>),
    Concatenated(Seq<Node>),
}

/// Why a binding could not be parsed.
#[derive(Clone, Copy, Debug, PartialEq, Eq, Structural)]
pub enum ParseError {
    /// A specific character was required; `found` is what stood there.
    Mismatch { expected: char, found: Option<char> },
    /// A character that no production accepts at this position.
    UnexpectedCharacter(char),
    /// An identifier or a literal was required and absent.
    MissingIdentifier,
}

/// Outcome of a production that may decline to match.
pub enum Step<T> {
    NoMatch,
    Matched(T, int),
    Failed(ParseError),
}

/// Outcome of a production that always matches unless it fails.
pub type Run = Result<(Seq<Node>, int), ParseError>;

/// The character at `i`, if any.
pub open spec fn at(s: Seq<char>, i: int) -> Option<char> {
    if 0 <= i < s.len() {
        Some(s[i])
    } else {
        None
    }
}

/// Whether a node may stand inside a concatenation.
pub open spec fn concatable(n: Node) -> bool {
    n is Path || n is Value || n is Expression
}

/// The shape that every tree built by parsing has: a concatenation holds two
/// or more nodes, each a path, a literal or an expression.
pub open spec fn well_formed(n: Node) -> bool
    decreases n,
{
    match n {
        Node::Path(xs) => forall|k: int| 0 <= k < xs.len() ==> #[trigger] well_formed(xs[k]),
        Node::Query(key, value) => well_formed(*key) && match value {
            Some(v) => well_formed(*v),
            None => true,
        },
        Node::Concatenated(xs) => xs.len() >= 2 && forall|k: int|
            0 <= k < xs.len() ==> concatable(xs[k]) && #[trigger] well_formed(xs[k]),
        _ => true,
    }
}

/// Every node of `ns` is well formed.
pub open spec fn all_well_formed(ns: Seq<Node>) -> bool {
    forall|k: int| 0 <= k < ns.len() ==> well_formed(#[trigger] ns[k])
}

/// End of the run of whitespace that starts at `i`.
pub open spec fn skip_ws(s: Seq<char>, i: int) -> int
    decreases s.len() - i,
{
    if 0 <= i < s.len() && whitespace(s[i]) {
        skip_ws(s, i + 1)
    } else {
        i
    }
}

/// End of the run of identifier characters that starts at `i`.
pub open spec fn ident_end(s: Seq<char>, i: int) -> int
    decreases s.len() - i,
{
    if 0 <= i < s.len() && identifier_char(s[i]) {
        ident_end(s, i + 1)
    } else {
        i
    }
}

/// End of the run of `=` that starts at `i`.
pub open spec fn equals_end(s: Seq<char>, i: int) -> int
    decreases s.len() - i,
{
    if 0 <= i < s.len() && s[i] == '=' {
        equals_end(s, i + 1)
    } else {
        i
    }
}

/// First position from `i` on that holds `q`, or the end of the input.
pub open spec fn quote_end(s: Seq<char>, i: int, q: char) -> int
    decreases s.len() - i,
{
    if 0 <= i < s.len() && s[i] != q {
        quote_end(s, i + 1, q)
    } else {
        i
    }
}

/// A maximal, non-empty run of identifier characters.
pub open spec fn identifier(s: Seq<char>, i: int) -> Step<Seq<char>> {
    if 0 <= i < s.len() && identifier_char(s[i]) {
        Step::Matched(s.subrange(i, ident_end(s, i)), ident_end(s, i))
    } else {
        Step::NoMatch
    }
}

/// `{ identifier }`, committed once `{` is seen.
pub open spec fn expression(s: Seq<char>, i: int) -> Step<Node> {
    if at(s, i) != Some('{') {
        Step::NoMatch
    } else {
        match identifier(s, skip_ws(s, i + 1)) {
            Step::Matched(name, j) => {
                let k = skip_ws(s, j);
                if at(s, k) == Some('}') {
                    Step::Matched(Node::Expression(name), k + 1)
                } else {
                    Step::Failed(ParseError::Mismatch { expected: '}', found: at(s, k) })
                }
            },
            _ => Step::Failed(ParseError::MissingIdentifier),
        }
    }
}

/// A quoted literal, `'...'` or `"..."`, committed once the quote is seen.
pub open spec fn quoted(s: Seq<char>, i: int) -> Step<Node> {
    if at(s, i) == Some('\'') || at(s, i) == Some('"') {
        let q = s[i];
        let j = quote_end(s, i + 1, q);
        if j < s.len() {
            Step::Matched(Node::Value(s.subrange(i + 1, j)), j + 1)
        } else {
            Step::Failed(ParseError::Mismatch { expected: q, found: None })
        }
    } else {
        Step::NoMatch
    }
}

/// `[key]` or `[key=value]`, committed once `[` is seen.
pub open spec fn bracket(s: Seq<char>, i: int) -> Step<Node> {
    if at(s, i) != Some('[') {
        Step::NoMatch
    } else {
        match quoted(s, skip_ws(s, i + 1)) {
            Step::NoMatch => Step::Failed(ParseError::MissingIdentifier),
            Step::Failed(e) => Step::Failed(e),
            Step::Matched(key, j) => {
                let k = skip_ws(s, j);
                let body: Step<Node> = if at(s, k) == Some('=') {
                    let v = skip_ws(s, equals_end(s, k));
                    match quoted(s, v) {
                        Step::NoMatch => Step::Matched(
                            Node::Query(Box::new(key), None),
                            skip_ws(s, v),
                        ),
                        Step::Failed(e) => Step::Failed(e),
                        Step::Matched(value, w) => Step::Matched(
                            Node::Query(Box::new(key), Some(Box::new(value))),
                            skip_ws(s, w),
                        ),
                    }
                } else {
                    Step::Matched(key, k)
                };
                match body {
                    Step::Matched(n, e) => if at(s, e) == Some(']') {
                        Step::Matched(n, e + 1)
                    } else {
                        Step::Failed(ParseError::Mismatch { expected: ']', found: at(s, e) })
                    },
                    other => other,
                }
            },
        }
    }
}

/// The bracket clauses that follow one another from `i`.
pub open spec fn brackets(s: Seq<char>, i: int) -> Run
    decreases s.len() - i,
{
    match bracket(s, i) {
        Step::NoMatch => Ok((Seq::empty(), i)),
        Step::Failed(e) => Err(e),
        Step::Matched(n, j) => if i < j <= s.len() {
            match brackets(s, j) {
                Ok((rest, k)) => Ok((seq![n] + rest, k)),
                Err(e) => Err(e),
            }
        } else {
            Ok((seq![n], j))
        },
    }
}

/// `{{ path }}`, committed once two `{` are seen.
pub open spec fn nested_path(s: Seq<char>, i: int) -> Step<Node>
    decreases s.len() - i, 0int,
{
    if at(s, i) == Some('{') && at(s, i + 1) == Some('{') {
        match path_from(s, i + 2, true) {
            Err(e) => Step::Failed(e),
            Ok((nodes, j)) => if at(s, j) != Some('}') {
                Step::Failed(ParseError::Mismatch { expected: '}', found: at(s, j) })
            } else if at(s, j + 1) != Some('}') {
                Step::Failed(ParseError::Mismatch { expected: '}', found: at(s, j + 1) })
            } else {
                Step::Matched(Node::Path(nodes), j + 2)
            },
        }
    } else {
        Step::NoMatch
    }
}

/// A nested path, an expression or an identifier, tried in that order.
pub open spec fn simple_segment(s: Seq<char>, i: int) -> Step<Node>
    decreases s.len() - i, 1int,
{
    match nested_path(s, i) {
        Step::NoMatch => match expression(s, i) {
            Step::NoMatch => match identifier(s, i) {
                Step::Matched(v, j) => Step::Matched(Node::Value(v), j),
                _ => Step::NoMatch,
            },
            other => other,
        },
        other => other,
    }
}

/// The simple segments that follow one another from `i`, with no separator.
pub open spec fn simple_segments(s: Seq<char>, i: int) -> Run
    decreases s.len() - i, 2int,
{
    match simple_segment(s, i) {
        Step::NoMatch => Ok((Seq::empty(), i)),
        Step::Failed(e) => Err(e),
        Step::Matched(n, j) => if i < j <= s.len() {
            match simple_segments(s, j) {
                Ok((rest, k)) => Ok((seq![n] + rest, k)),
                Err(e) => Err(e),
            }
        } else {
            Ok((seq![n], j))
        },
    }
}

/// One segment: a single simple segment as it is, two or more fused.
pub open spec fn segment(s: Seq<char>, i: int) -> Step<Node>
    decreases s.len() - i, 3int,
{
    match simple_segments(s, i) {
        Err(e) => Step::Failed(e),
        Ok((parts, j)) => if parts.len() == 0 {
            Step::NoMatch
        } else if parts.len() == 1 {
            Step::Matched(parts[0], j)
        } else {
            Step::Matched(Node::Concatenated(parts), j)
        },
    }
}

/// A segment and the bracket clauses after it; nothing if no segment starts at `i`.
pub open spec fn group(s: Seq<char>, i: int) -> Run
    decreases s.len() - i, 4int,
{
    match segment(s, i) {
        Step::NoMatch => Ok((Seq::empty(), i)),
        Step::Failed(e) => Err(e),
        Step::Matched(n, j) => match brackets(s, j) {
            Ok((rest, k)) => Ok((seq![n] + rest, k)),
            Err(e) => Err(e),
        },
    }
}

/// Groups separated by `.`, up to the end of the input or a `}`.
/// `first` tells whether the group at `i` opens the path rather than follows a separator.
pub open spec fn path_from(s: Seq<char>, i: int, first: bool) -> Run
    decreases s.len() - i, 5int,
{
    match group(s, i) {
        Err(e) => Err(e),
        Ok((g, j)) => {
            let done = at(s, j) is None || at(s, j) == Some('}');
            if g.len() == 0 && !first && done {
                Err(ParseError::MissingIdentifier)
            } else if done {
                Ok((g, j))
            } else if g.len() == 0 {
                Err(ParseError::UnexpectedCharacter(s[j]))
            } else if s[j] != '.' {
                Err(ParseError::Mismatch { expected: '.', found: Some(s[j]) })
            } else if i <= j {
                match path_from(s, j + 1, false) {
                    Ok((rest, k)) => Ok((g + rest, k)),
                    Err(e) => Err(e),
                }
            } else {
                Ok((g, j))
            }
        },
    }
}

/// What parsing the whole of `s` yields: the path's nodes, or the first error.
pub open spec fn parse_spec(s: Seq<char>) -> Result<Seq<Node>, ParseError> {
    match path_from(s, 0, true) {
        Ok((nodes, j)) => if j == s.len() {
            Ok(nodes)
        } else {
            Err(ParseError::UnexpectedCharacter(s[j]))
        },
        Err(e) => Err(e),
    }
}

} // verus!
