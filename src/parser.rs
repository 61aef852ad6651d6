//! The cursor over the input and the recursive-descent rules that drive it.
use vstd::prelude::*;
use crate::ast::{
    AnyNode, ConcatableNode, ConcatenatedNode, ConcatenatedResult, ExpressionNode, PathNode,
    QueryNode, ValueNode, any_view, anys_view, concatable_view, concatables_view,
    lemma_anys_view_concat, lemma_anys_view_len, lemma_anys_view_single,
    lemma_concatables_view_len, lemma_concatables_view_push, value_view,
};
use crate::chars::{chars_of, is_identifier_char, is_whitespace, string_of};
use crate::grammar::{
    Node, ParseError, Run, Step, at, bracket, brackets, equals_end, expression, group, ident_end,
    identifier, nested_path, path_from, quote_end, quoted, segment, simple_segment,
    simple_segments, skip_ws,
};

verus! {

broadcast use vstd::std_specs::vec::group_vec_axioms;

/// A cursor over the characters of one binding.
pub(crate) struct ParsingState {
    pub(crate) chars: Vec<char>,
    pub(crate) pos: usize,
}

/// A rule's outcome, with its node in mathematical form.
pub open spec fn agrees(st: Step<Node>, r: Result<Option<Node>, ParseError>, i: int, pos: int) -> bool {
    match st {
        Step::NoMatch => r == Ok::<Option<Node>, ParseError>(None) && pos == i,
        Step::Matched(n, j) => r == Ok::<Option<Node>, ParseError>(Some(n)) && pos == j && i < j,
        Step::Failed(e) => r == Err::<Option<Node>, ParseError>(e),
    }
}

/// A run's outcome, with its nodes in mathematical form.
pub open spec fn run_agrees(run: Run, r: Result<Seq<Node>, ParseError>, pos: int) -> bool {
    match run {
        Ok((nodes, j)) => r == Ok::<Seq<Node>, ParseError>(nodes) && pos == j,
        Err(e) => r == Err::<Seq<Node>, ParseError>(e),
    }
}

/// An optional node of a rule's result, in mathematical form.
pub open spec fn lift<T>(r: Result<Option<T>, ParseError>, f: spec_fn(T) -> Node) -> Result<Option<Node>, ParseError> {
    match r {
        Ok(Some(x)) => Ok(Some(f(x))),
        Ok(None) => Ok(None),
        Err(e) => Err(e),
    }
}

/// The nodes of a path result, in mathematical form.
pub open spec fn nodes_out(r: Result<Vec<AnyNode>, ParseError>) -> Result<Seq<Node>, ParseError> {
    match r {
        Ok(v) => Ok(anys_view(v@)),
        Err(e) => Err(e),
    }
}

/// `run` with `acc` put before its nodes.
pub open spec fn prepend_run(acc: Seq<Node>, run: Run) -> Run {
    match run {
        Ok((nodes, k)) => Ok((acc + nodes, k)),
        Err(e) => Err(e),
    }
}

/// Putting `a` before `b` before a run's nodes is putting `a + b` before them.
pub proof fn lemma_prepend_run(a: Seq<Node>, b: Seq<Node>, run: Run)
    ensures
        prepend_run(a, prepend_run(b, run)) == prepend_run(a + b, run),
{
    match run {
        Ok((n, k)) => {
            assert(a + (b + n) =~= (a + b) + n);
        },
        Err(_) => {},
    }
}

impl ParsingState {
    pub(crate) open spec fn text(&self) -> Seq<char> {
        self.chars@
    }

    pub(crate) open spec fn position(&self) -> int {
        self.pos as int
    }

    pub(crate) open spec fn inv(&self) -> bool {
        0 <= self.position() <= self.text().len()
    }

    /// The character under the cursor, if any.
    pub(crate) open spec fn current_spec(&self) -> Option<char> {
        at(self.text(), self.position())
    }

    /// A cursor at the first character of `binding`.
    pub(crate) fn new(binding: &str) -> (r: ParsingState)
        ensures
            r.text() == binding@,
            r.position() == 0,
            r.inv(),
    {
        ParsingState { chars: chars_of(binding), pos: 0 }
    }

    pub(crate) fn current(&self) -> (r: Option<char>)
        requires
            self.inv(),
        ensures
            r == self.current_spec(),
    {
        if self.pos < self.chars.len() {
            Some(self.chars[self.pos])
        } else {
            None
        }
    }

    /// Moves one character on, after checking the current one against `expected`.
    pub(crate) fn next(&mut self, expected: Option<char>) -> (r: Result<Option<char>, ParseError>)
        requires
            old(self).inv(),
        ensures
            final(self).inv(),
            final(self).text() == old(self).text(),
            match expected {
                Some(c) if old(self).current_spec() != Some(c) => {
                    &&& r == Err::<Option<char>, ParseError>(
                        ParseError::Mismatch { expected: c, found: old(self).current_spec() },
                    )
                    &&& final(self).position() == old(self).position()
                },
                _ => {
                    &&& final(self).position() == if old(self).position() < old(self).text().len() {
                        old(self).position() + 1
                    } else {
                        old(self).position()
                    }
                    &&& r == Ok::<Option<char>, ParseError>(final(self).current_spec())
                },
            },
    {
        let found = self.current();
        if let Some(c) = expected {
            if found != Some(c) {
                return Err(ParseError::Mismatch { expected: c, found });
            }
        }
        if self.pos < self.chars.len() {
            self.pos = self.pos + 1;
        }
        Ok(self.current())
    }

    /// Moves past a run of whitespace.
    pub(crate) fn whitespace(&mut self)
        requires
            old(self).inv(),
        ensures
            final(self).inv(),
            final(self).text() == old(self).text(),
            final(self).position() == skip_ws(old(self).text(), old(self).position()),
            old(self).position() <= final(self).position(),
    {
        while self.pos < self.chars.len() && is_whitespace(self.chars[self.pos])
            invariant
                self.inv(),
                self.text() == old(self).text(),
                skip_ws(self.text(), old(self).position()) == skip_ws(self.text(), self.position()),
                old(self).position() <= self.position(),
            decreases self.chars.len() - self.pos,
        {
            self.pos = self.pos + 1;
        }
    }

    /// A maximal run of identifier characters, or nothing if none starts here.
    pub(crate) fn identifier(&mut self) -> (r: Option<ValueNode>)
        requires
            old(self).inv(),
        ensures
            old(self).position() <= final(self).position(),
            final(self).inv(),
            final(self).text() == old(self).text(),
            match identifier(old(self).text(), old(self).position()) {
                Step::NoMatch => r is None && final(self).position() == old(self).position(),
                Step::Matched(v, j) => r is Some && value_view(r->0) == v
                    && final(self).position() == j && old(self).position() < j,
                Step::Failed(_) => false,
            },
    {
        if !is_identifier_char(self.current()) {
            return None;
        }
        let ghost s = self.text();
        let ghost i = self.position();
        let mut value: Vec<char> = Vec::new();
        assert(self.pos < self.chars.len());
        value.push(self.chars[self.pos]);
        self.pos = self.pos + 1;
        assert(value@ =~= s.subrange(i, self.position()));
        while self.pos < self.chars.len() && is_identifier_char(Some(self.chars[self.pos]))
            invariant
                self.inv(),
                self.text() == s,
                s == old(self).text(),
                i == old(self).position(),
                i < self.position(),
                value@ == s.subrange(i, self.position()),
                ident_end(s, i) == ident_end(s, self.position()),
            decreases self.chars.len() - self.pos,
        {
            value.push(self.chars[self.pos]);
            self.pos = self.pos + 1;
            assert(value@ =~= s.subrange(i, self.position()));
        }
        Some(ValueNode::from(string_of(&value)))
    }

    /// Whether the character `k` places after the cursor is `c`.
    pub(crate) fn peek_is(&self, k: usize, c: char) -> (r: bool)
        requires
            self.inv(),
            k <= 1,
        ensures
            r == (at(self.text(), self.position() + k) == Some(c)),
    {
        k < self.chars.len() - self.pos && self.chars[self.pos + k] == c
    }

    /// `{ identifier }`; once `{` is seen, anything else fails.
    pub(crate) fn expression(&mut self) -> (r: Result<Option<ExpressionNode>, ParseError>)
        requires
            old(self).inv(),
        ensures
            final(self).inv(),
            final(self).text() == old(self).text(),
            old(self).position() <= final(self).position(),
            agrees(
                expression(old(self).text(), old(self).position()),
                lift(r, |e: ExpressionNode| Node::Expression(e.value@)),
                old(self).position(),
                final(self).position(),
            ),
    {
        if !self.peek_is(0, '{') {
            return Ok(None);
        }
        let _ = self.next(Some('{'));
        self.whitespace();
        let name = match self.identifier() {
            Some(v) => v,
            None => return Err(ParseError::MissingIdentifier),
        };
        self.whitespace();
        match self.next(Some('}')) {
            Err(e) => Err(e),
            Ok(_) => Ok(Some(ExpressionNode::from(name))),
        }
    }

    /// A literal between two equal quotes, `'` or `"`; once the quote is seen,
    /// a missing closing quote fails.
    pub(crate) fn quoted_segment(&mut self) -> (r: Result<Option<ValueNode>, ParseError>)
        requires
            old(self).inv(),
        ensures
            final(self).inv(),
            final(self).text() == old(self).text(),
            old(self).position() <= final(self).position(),
            agrees(
                quoted(old(self).text(), old(self).position()),
                lift(r, |v: ValueNode| Node::Value(value_view(v))),
                old(self).position(),
                final(self).position(),
            ),
    {
        let q = match self.current() {
            Some(c) => if c == '\'' || c == '"' {
                c
            } else {
                return Ok(None);
            },
            None => return Ok(None),
        };
        let ghost s = self.text();
        let ghost i = self.position();
        let _ = self.next(Some(q));
        let mut value: Vec<char> = Vec::new();
        while self.pos < self.chars.len() && self.chars[self.pos] != q
            invariant
                self.inv(),
                self.text() == s,
                s == old(self).text(),
                i == old(self).position(),
                i < s.len(),
                q == s[i],
                i + 1 <= self.position(),
                value@ == s.subrange(i + 1, self.position()),
                quote_end(s, i + 1, q) == quote_end(s, self.position(), q),
            decreases self.chars.len() - self.pos,
        {
            value.push(self.chars[self.pos]);
            self.pos = self.pos + 1;
            assert(value@ =~= s.subrange(i + 1, self.position()));
        }
        match self.next(Some(q)) {
            Err(e) => Err(e),
            Ok(_) => Ok(Some(ValueNode::from(string_of(&value)))),
        }
    }

    /// Moves past a run of `=`, telling whether there was one.
    pub(crate) fn equals(&mut self) -> (r: bool)
        requires
            old(self).inv(),
        ensures
            final(self).inv(),
            final(self).text() == old(self).text(),
            r == (old(self).current_spec() == Some('=')),
            final(self).position() == equals_end(old(self).text(), old(self).position()),
            old(self).position() <= final(self).position(),
    {
        let r = self.peek_is(0, '=');
        while self.pos < self.chars.len() && self.chars[self.pos] == '='
            invariant
                self.inv(),
                self.text() == old(self).text(),
                equals_end(self.text(), old(self).position()) == equals_end(self.text(), self.position()),
                old(self).position() <= self.position(),
            decreases self.chars.len() - self.pos,
        {
            self.pos = self.pos + 1;
        }
        r
    }


    /// `{{ path }}`; once two `{` are seen, anything else fails.
    pub(crate) fn nested_path(&mut self) -> (r: Result<Option<PathNode>, ParseError>)
        requires
            old(self).inv(),
        ensures
            final(self).inv(),
            final(self).text() == old(self).text(),
            old(self).position() <= final(self).position(),
            agrees(
                nested_path(old(self).text(), old(self).position()),
                lift(r, |p: PathNode| Node::Path(anys_view(p.path@))),
                old(self).position(),
                final(self).position(),
            ),
        decreases old(self).text().len() - old(self).position(), 0int,
    {
        if !(self.peek_is(0, '{') && self.peek_is(1, '{')) {
            return Ok(None);
        }
        let _ = self.next(Some('{'));
        let _ = self.next(Some('{'));
        let path_node = match self.parse_path(true) {
            Err(e) => return Err(e),
            Ok(p) => p,
        };
        if let Err(e) = self.next(Some('}')) {
            return Err(e);
        }
        if let Err(e) = self.next(Some('}')) {
            return Err(e);
        }
        Ok(Some(path_node))
    }

    /// A nested path, an expression or an identifier, the first that matches.
    pub(crate) fn simple_segment(&mut self) -> (r: Result<Option<ConcatableNode>, ParseError>)
        requires
            old(self).inv(),
        ensures
            final(self).inv(),
            final(self).text() == old(self).text(),
            old(self).position() <= final(self).position(),
            agrees(
                simple_segment(old(self).text(), old(self).position()),
                lift(r, |n: ConcatableNode| concatable_view(n)),
                old(self).position(),
                final(self).position(),
            ),
        decreases old(self).text().len() - old(self).position(), 1int,
    {
        match self.nested_path() {
            Err(e) => return Err(e),
            Ok(Some(p)) => return Ok(Some(ConcatableNode::Path(p))),
            Ok(None) => {},
        }
        match self.expression() {
            Err(e) => return Err(e),
            Ok(Some(x)) => return Ok(Some(ConcatableNode::Expression(x))),
            Ok(None) => {},
        }
        match self.identifier() {
            Some(v) => Ok(Some(ConcatableNode::Value(v))),
            None => Ok(None),
        }
    }

    /// Adjacent simple segments: none, one as it is, or several fused.
    pub(crate) fn segment(&mut self) -> (r: Result<Option<AnyNode>, ParseError>)
        requires
            old(self).inv(),
        ensures
            final(self).inv(),
            final(self).text() == old(self).text(),
            old(self).position() <= final(self).position(),
            agrees(
                segment(old(self).text(), old(self).position()),
                lift(r, |n: AnyNode| any_view(n)),
                old(self).position(),
                final(self).position(),
            ),
        decreases old(self).text().len() - old(self).position(), 3int,
    {
        let ghost s = self.text();
        let ghost i = self.position();
        let mut segments: Vec<ConcatableNode> = Vec::new();
        loop
            invariant
                self.inv(),
                self.text() == s,
                s == old(self).text(),
                i == old(self).position(),
                i <= self.position(),
                segments.len() == 0 ==> self.position() == i,
                simple_segments(s, i) == prepend_run(
                    concatables_view(segments@),
                    simple_segments(s, self.position()),
                ),
            ensures
                self.inv(),
                self.text() == s,
                i <= self.position(),
                segments.len() == 0 ==> self.position() == i,
                simple_segments(s, i) == Ok::<(Seq<Node>, int), ParseError>(
                    (concatables_view(segments@), self.position()),
                ),
            decreases self.chars.len() - self.pos,
        {
            let ghost before = self.position();
            let next = match self.simple_segment() {
                Err(e) => return Err(e),
                Ok(next) => next,
            };
            match next {
                None => {
                    assert(concatables_view(segments@) + Seq::empty() =~= concatables_view(segments@));
                    break;
                },
                Some(n) => {
                    proof {
                        lemma_concatables_view_push(segments@, n);
                        lemma_prepend_run(
                            concatables_view(segments@),
                            seq![concatable_view(n)],
                            simple_segments(s, self.position()),
                        );
                        assert(concatables_view(segments@) + seq![concatable_view(n)]
                            =~= concatables_view(segments@).push(concatable_view(n)));
                    }
                    segments.push(n);
                },
            }
            assert(before < self.position());
        }
        proof {
            lemma_concatables_view_len(segments@);
        }
        if segments.len() == 0 {
            return Ok(None);
        }
        match ConcatenatedNode::new(segments) {
            ConcatenatedResult::Node(n) => Ok(Some(AnyNode::from(n))),
            ConcatenatedResult::Concat(c) => Ok(Some(AnyNode::from(c))),
        }
    }

    /// A segment and the bracket clauses that follow it.
    pub(crate) fn parse_segment_and_brackets(&mut self) -> (r: Result<Vec<AnyNode>, ParseError>)
        requires
            old(self).inv(),
        ensures
            final(self).inv(),
            final(self).text() == old(self).text(),
            old(self).position() <= final(self).position(),
            run_agrees(
                group(old(self).text(), old(self).position()),
                nodes_out(r),
                final(self).position(),
            ),
        decreases old(self).text().len() - old(self).position(), 4int,
    {
        let ghost s = self.text();
        let ghost i = self.position();
        let mut parsed: Vec<AnyNode> = Vec::new();
        let first = match self.segment() {
            Err(e) => return Err(e),
            Ok(None) => return Ok(parsed),
            Ok(Some(n)) => n,
        };
        proof {
            lemma_anys_view_single(first);
            assert(parsed@.push(first) =~= seq![first]);
        }
        parsed.push(first);
        loop
            invariant
                self.inv(),
                self.text() == s,
                s == old(self).text(),
                i == old(self).position(),
                i <= self.position(),
                group(s, i) == prepend_run(anys_view(parsed@), brackets(s, self.position())),
            ensures
                self.inv(),
                self.text() == s,
                i <= self.position(),
                group(s, i) == Ok::<(Seq<Node>, int), ParseError>(
                    (anys_view(parsed@), self.position()),
                ),
            decreases self.chars.len() - self.pos,
        {
            let ghost before = self.position();
            let next = match self.parse_bracket() {
                Err(e) => return Err(e),
                Ok(next) => next,
            };
            match next {
                None => {
                    assert(anys_view(parsed@) + Seq::empty() =~= anys_view(parsed@));
                    break;
                },
                Some(n) => {
                    proof {
                        lemma_anys_view_concat(parsed@, seq![n]);
                        lemma_anys_view_single(n);
                        assert(parsed@ + seq![n] =~= parsed@.push(n));
                        lemma_prepend_run(
                            anys_view(parsed@),
                            seq![any_view(n)],
                            brackets(s, self.position()),
                        );
                    }
                    parsed.push(n);
                },
            }
            assert(before < self.position());
        }
        Ok(parsed)
    }

    /// Groups separated by `.`, up to the end of the input or a `}`.
    pub(crate) fn parse_path(&mut self, opening: bool) -> (r: Result<PathNode, ParseError>)
        requires
            old(self).inv(),
        ensures
            final(self).inv(),
            final(self).text() == old(self).text(),
            old(self).position() <= final(self).position(),
            run_agrees(
                path_from(old(self).text(), old(self).position(), opening),
                match r {
                    Ok(p) => Ok(anys_view(p.path@)),
                    Err(e) => Err(e),
                },
                final(self).position(),
            ),
        decreases old(self).text().len() - old(self).position(), 5int,
    {
        let ghost s = self.text();
        let ghost i = self.position();
        let mut parts: Vec<AnyNode> = Vec::new();
        let mut first = opening;
        proof {
            assert(anys_view(parts@) + Seq::empty() =~= Seq::<Node>::empty());
            assert(anys_view(Seq::<AnyNode>::empty()) =~= Seq::<Node>::empty());
            assert(Seq::<Node>::empty() + Seq::empty() =~= Seq::<Node>::empty());
        }
        loop
            invariant
                self.inv(),
                self.text() == s,
                s == old(self).text(),
                i == old(self).position(),
                i <= self.position(),
                path_from(s, i, opening) == prepend_run(
                    anys_view(parts@),
                    path_from(s, self.position(), first),
                ),
            decreases self.chars.len() - self.pos,
        {
            let ghost before = self.position();
            let mut group = match self.parse_segment_and_brackets() {
                Err(e) => return Err(e),
                Ok(g) => g,
            };
            let empty = group.len() == 0;
            let ghost g = anys_view(group@);
            let ghost p_old = anys_view(parts@);
            proof {
                lemma_anys_view_concat(parts@, group@);
                lemma_anys_view_len(group@);
            }
            parts.append(&mut group);
            let done = match self.current() {
                None => true,
                Some(c) => c == '}',
            };
            if empty && !first && done {
                return Err(ParseError::MissingIdentifier);
            }
            if done {
                return Ok(PathNode::from(parts));
            }
            if empty {
                return Err(ParseError::UnexpectedCharacter(self.chars[self.pos]));
            }
            if let Err(e) = self.next(Some('.')) {
                return Err(e);
            }
            proof {
                lemma_prepend_run(p_old, g, path_from(s, self.position(), false));
            }
            first = false;
            assert(before < self.position());
        }
    }

    /// `[key]` or `[key=value]`, with quoted key and value; once `[` is seen,
    /// anything else fails.
    pub(crate) fn parse_bracket(&mut self) -> (r: Result<Option<AnyNode>, ParseError>)
        requires
            old(self).inv(),
        ensures
            final(self).inv(),
            final(self).text() == old(self).text(),
            old(self).position() <= final(self).position(),
            agrees(
                bracket(old(self).text(), old(self).position()),
                lift(r, |n: AnyNode| any_view(n)),
                old(self).position(),
                final(self).position(),
            ),
    {
        if !self.peek_is(0, '[') {
            return Ok(None);
        }
        let _ = self.next(Some('['));
        self.whitespace();
        let key = match self.quoted_segment() {
            Err(e) => return Err(e),
            Ok(None) => return Err(ParseError::MissingIdentifier),
            Ok(Some(k)) => AnyNode::from(k),
        };
        self.whitespace();
        let node = if self.equals() {
            self.whitespace();
            let value = match self.quoted_segment() {
                Err(e) => return Err(e),
                Ok(None) => None,
                Ok(Some(v)) => Some(AnyNode::from(v)),
            };
            self.whitespace();
            AnyNode::from(QueryNode::new(key, value))
        } else {
            key
        };
        match self.next(Some(']')) {
            Err(e) => Err(e),
            Ok(_) => Ok(Some(node)),
        }
    }
}

} // verus!
