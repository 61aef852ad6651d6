//! Properties of every parse.
use vstd::prelude::*;
use crate::ast::AnyNode;
use crate::binding::parsed_as;
use crate::parser::nodes_out;
use crate::grammar::{
    ParseError,
    Node, Step, all_well_formed, at, bracket, brackets, concatable, group, nested_path,
    parse_spec, path_from, quoted, segment, simple_segment, simple_segments, well_formed,
};

verus! {

proof fn lemma_quoted(s: Seq<char>, i: int)
    ensures
        quoted(s, i) is Matched ==> quoted(s, i)->Matched_0 is Value,
{
}

proof fn lemma_bracket(s: Seq<char>, i: int)
    ensures
        bracket(s, i) is Matched ==> well_formed(bracket(s, i)->Matched_0),
{
    if at(s, i) == Some('[') {
        let j = crate::grammar::skip_ws(s, i + 1);
        lemma_quoted(s, j);
        if let Step::Matched(key, j2) = quoted(s, j) {
            let k = crate::grammar::skip_ws(s, j2);
            let v = crate::grammar::skip_ws(s, crate::grammar::equals_end(s, k));
            lemma_quoted(s, v);
            assert(well_formed(key));
            if let Step::Matched(value, _) = quoted(s, v) {
                assert(well_formed(value));
                assert(well_formed(Node::Query(Box::new(key), Some(Box::new(value)))));
            }
            assert(well_formed(Node::Query(Box::new(key), None)));
        }
    }
}

proof fn lemma_cons(n: Node, rest: Seq<Node>)
    requires
        well_formed(n),
        all_well_formed(rest),
    ensures
        all_well_formed(seq![n] + rest),
{
    assert forall|k: int| 0 <= k < (seq![n] + rest).len() implies #[trigger] well_formed(
        (seq![n] + rest)[k],
    ) by {
        if k > 0 {
            assert((seq![n] + rest)[k] == rest[k - 1]);
        }
    }
}

proof fn lemma_brackets(s: Seq<char>, i: int)
    ensures
        brackets(s, i) is Ok ==> all_well_formed(brackets(s, i)->Ok_0.0),
    decreases s.len() - i,
{
    lemma_bracket(s, i);
    if let Step::Matched(n, j) = bracket(s, i) {
        if i < j <= s.len() {
            lemma_brackets(s, j);
            if let Ok((rest, _)) = brackets(s, j) {
                lemma_cons(n, rest);
            }
        } else {
            lemma_cons(n, Seq::empty());
            assert(seq![n] + Seq::<Node>::empty() =~= seq![n]);
        }
    }
}

proof fn lemma_nested_path(s: Seq<char>, i: int)
    ensures
        nested_path(s, i) is Matched ==> concatable(nested_path(s, i)->Matched_0)
            && well_formed(nested_path(s, i)->Matched_0),
    decreases s.len() - i, 0int,
{
    if at(s, i) == Some('{') && at(s, i + 1) == Some('{') {
        lemma_path(s, i + 2, true);
        if let Ok((nodes, _)) = path_from(s, i + 2, true) {
            assert(well_formed(Node::Path(nodes)));
        }
    }
}

proof fn lemma_simple_segment(s: Seq<char>, i: int)
    ensures
        simple_segment(s, i) is Matched ==> concatable(simple_segment(s, i)->Matched_0)
            && well_formed(simple_segment(s, i)->Matched_0),
    decreases s.len() - i, 1int,
{
    lemma_nested_path(s, i);
}

proof fn lemma_simple_segments(s: Seq<char>, i: int)
    ensures
        simple_segments(s, i) is Ok ==> forall|k: int|
            0 <= k < simple_segments(s, i)->Ok_0.0.len() ==> concatable(
                #[trigger] simple_segments(s, i)->Ok_0.0[k],
            ) && well_formed(simple_segments(s, i)->Ok_0.0[k]),
    decreases s.len() - i, 2int,
{
    lemma_simple_segment(s, i);
    if let Step::Matched(n, j) = simple_segment(s, i) {
        if i < j <= s.len() {
            lemma_simple_segments(s, j);
            if let Ok((rest, _)) = simple_segments(s, j) {
                assert forall|k: int| 0 <= k < (seq![n] + rest).len() implies concatable(
                    #[trigger] (seq![n] + rest)[k],
                ) && well_formed((seq![n] + rest)[k]) by {
                    if k > 0 {
                        assert((seq![n] + rest)[k] == rest[k - 1]);
                    }
                }
            }
        }
    }
}

proof fn lemma_segment(s: Seq<char>, i: int)
    ensures
        segment(s, i) is Matched ==> well_formed(segment(s, i)->Matched_0),
    decreases s.len() - i, 3int,
{
    lemma_simple_segments(s, i);
    if let Ok((parts, _)) = simple_segments(s, i) {
        if parts.len() >= 2 {
            assert(well_formed(Node::Concatenated(parts)));
        } else if parts.len() == 1 {
            assert(well_formed(parts[0]));
        }
    }
}

proof fn lemma_group(s: Seq<char>, i: int)
    ensures
        group(s, i) is Ok ==> all_well_formed(group(s, i)->Ok_0.0),
    decreases s.len() - i, 4int,
{
    lemma_segment(s, i);
    if let Step::Matched(n, j) = segment(s, i) {
        lemma_brackets(s, j);
        if let Ok((rest, _)) = brackets(s, j) {
            lemma_cons(n, rest);
        }
    }
}

proof fn lemma_path(s: Seq<char>, i: int, first: bool)
    ensures
        path_from(s, i, first) is Ok ==> all_well_formed(path_from(s, i, first)->Ok_0.0),
    decreases s.len() - i, 5int,
{
    lemma_group(s, i);
    if let Ok((g, j)) = group(s, i) {
        if i <= j && 0 <= j < s.len() && s[j] == '.' {
            lemma_path(s, j + 1, false);
            if let Ok((rest, _)) = path_from(s, j + 1, false) {
                assert forall|k: int| 0 <= k < (g + rest).len() implies #[trigger] well_formed(
                    (g + rest)[k],
                ) by {
                    if k >= g.len() {
                        assert((g + rest)[k] == rest[k - g.len()]);
                    }
                }
            }
        }
    }
}

/// Every tree that parsing yields is well formed: in particular a concatenation
/// never holds fewer than two nodes, and never a bracket clause or another
/// concatenation.
pub proof fn lemma_parse_well_formed(s: Seq<char>)
    ensures
        parse_spec(s) is Ok ==> all_well_formed(parse_spec(s)->Ok_0),
{
    lemma_path(s, 0, true);
}

/// Parsing is a function of the input's characters alone: two results for
/// inputs with the same characters hold the same nodes, or the same error.
pub proof fn lemma_parse_deterministic(
    a: Seq<char>,
    b: Seq<char>,
    r1: Result<Vec<AnyNode>, ParseError>,
    r2: Result<Vec<AnyNode>, ParseError>,
)
    requires
        a == b,
        parsed_as(a, r1),
        parsed_as(b, r2),
    ensures
        nodes_out(r1) == nodes_out(r2),
{
}

} // verus!
