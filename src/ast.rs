//! The syntax tree that parsing builds, and its mathematical form.
use vstd::prelude::*;
use crate::grammar::Node;

verus! {

broadcast use vstd::std_specs::vec::group_vec_axioms;

/// A full binding path, or a `{{ ... }}` path nested in another.
#[derive(Debug, PartialEq)]
pub struct PathNode {
    pub path: Vec<AnyNode>,
}

/// A bracket clause with an `=`: its key and, when one follows, its value.
#[derive(Debug, PartialEq)]
pub struct QueryNode {
    pub key: AnyNode,
    pub value: Option<AnyNode>,
}

/// What a literal holds.
#[derive(Debug, PartialEq)]
pub enum ValueNodeValue {
    String(String),
}

/// A literal: a bare identifier or a quoted string.
#[derive(Debug, PartialEq)]
pub struct ValueNode {
    pub value: ValueNodeValue,
}

/// A `{identifier}` placeholder.
#[derive(Debug, PartialEq)]
pub struct ExpressionNode {
    pub value: String,
}

/// Adjacent tokens fused into one segment, at least two of them.
#[derive(Debug, PartialEq)]
pub struct ConcatenatedNode {
    pub value: Vec<ConcatableNode>,
}

/// A single concatenable node, or a fusion of several.
#[derive(Debug, PartialEq)]
pub enum ConcatenatedResult {
    Node(ConcatableNode),
    Concat(ConcatenatedNode),
}

/// The nodes that may stand inside a concatenation.
#[derive(Debug, PartialEq)]
pub enum ConcatableNode {
    Path(PathNode),
    Value(ValueNode),
    Expression(ExpressionNode),
}

/// Any node of a path.
#[derive(Debug, PartialEq)]
pub enum AnyNode {
    Path(Box<PathNode>),
    Query(Box<QueryNode>),
    Value(Box<ValueNode>),
    Expression(Box<ExpressionNode>),
    Concatenated(Box<ConcatenatedNode>),
}

/// The sequence of nodes that a parsed binding consists of.
pub type Path = Vec<AnyNode>;

/// The text of a literal.
pub open spec fn value_view(v: ValueNode) -> Seq<char> {
    match v.value {
        ValueNodeValue::String(s) => s@,
    }
}

/// The mathematical form of a node.
pub open spec fn any_view(n: AnyNode) -> Node
    decreases n, 0int,
{
    match n {
        AnyNode::Path(p) => Node::Path(anys_view(p.path@)),
        AnyNode::Query(q) => Node::Query(
            Box::new(any_view(q.key)),
            match q.value {
                Some(v) => Some(Box::new(any_view(v))),
                None => None,
            },
        ),
        AnyNode::Value(v) => Node::Value(value_view(*v)),
        AnyNode::Expression(e) => Node::Expression(e.value@),
        AnyNode::Concatenated(c) => Node::Concatenated(concatables_view(c.value@)),
    }
}

/// The mathematical form of a sequence of nodes.
pub open spec fn anys_view(v: Seq<AnyNode>) -> Seq<Node>
    decreases v, 1int,
{
    if v.len() == 0 {
        Seq::empty()
    } else {
        anys_view(v.subrange(0, v.len() - 1)).push(any_view(v[v.len() - 1]))
    }
}

/// The mathematical form of a concatenable node.
pub open spec fn concatable_view(n: ConcatableNode) -> Node
    decreases n, 0int,
{
    match n {
        ConcatableNode::Path(p) => Node::Path(anys_view(p.path@)),
        ConcatableNode::Value(v) => Node::Value(value_view(v)),
        ConcatableNode::Expression(e) => Node::Expression(e.value@),
    }
}

/// The mathematical form of a sequence of concatenable nodes.
pub open spec fn concatables_view(v: Seq<ConcatableNode>) -> Seq<Node>
    decreases v, 1int,
{
    if v.len() == 0 {
        Seq::empty()
    } else {
        concatables_view(v.subrange(0, v.len() - 1)).push(concatable_view(v[v.len() - 1]))
    }
}

/// The form of a concatenation is the concatenation of the forms.
pub proof fn lemma_anys_view_concat(a: Seq<AnyNode>, b: Seq<AnyNode>)
    ensures
        anys_view(a + b) == anys_view(a) + anys_view(b),
    decreases b.len(),
{
    if b.len() == 0 {
        assert(a + b =~= a);
        assert(anys_view(a) + anys_view(b) =~= anys_view(a));
    } else {
        let b1 = b.subrange(0, b.len() - 1);
        lemma_anys_view_concat(a, b1);
        assert((a + b).subrange(0, (a + b).len() - 1) =~= a + b1);
        let x = any_view(b[b.len() - 1]);
        assert(anys_view(a) + anys_view(b1).push(x) =~= (anys_view(a) + anys_view(b1)).push(x));
    }
}

/// The form of a sequence of nodes has one element per node.
pub proof fn lemma_anys_view_len(a: Seq<AnyNode>)
    ensures
        anys_view(a).len() == a.len(),
    decreases a.len(),
{
    if a.len() > 0 {
        lemma_anys_view_len(a.subrange(0, a.len() - 1));
    }
}

/// The form of a sequence of concatenable nodes has one element per node.
pub proof fn lemma_concatables_view_len(a: Seq<ConcatableNode>)
    ensures
        concatables_view(a).len() == a.len(),
    decreases a.len(),
{
    if a.len() > 0 {
        lemma_concatables_view_len(a.subrange(0, a.len() - 1));
    }
}

/// The form of a single node's sequence.
pub proof fn lemma_anys_view_single(x: AnyNode)
    ensures
        anys_view(seq![x]) == seq![any_view(x)],
{
    assert(seq![x].subrange(0, 0) =~= Seq::<AnyNode>::empty());
    assert(anys_view(Seq::<AnyNode>::empty()).push(any_view(x)) =~= seq![any_view(x)]);
}

/// The form of a sequence grown by one concatenable node.
pub proof fn lemma_concatables_view_push(a: Seq<ConcatableNode>, x: ConcatableNode)
    ensures
        concatables_view(a.push(x)) == concatables_view(a).push(concatable_view(x)),
{
    assert(a.push(x).subrange(0, a.len() as int) =~= a);
}

impl From<PathNode> for AnyNode {
    fn from(path: PathNode) -> (r: AnyNode)
        ensures
            any_view(r) == Node::Path(anys_view(path.path@)),
    {
        AnyNode::Path(Box::new(path))
    }
}

impl vstd::std_specs::convert::FromSpecImpl<PathNode> for AnyNode {
    open spec fn obeys_from_spec() -> bool {
        true
    }

    open spec fn from_spec(path: PathNode) -> AnyNode {
        AnyNode::Path(Box::new(path))
    }
}

impl From<ExpressionNode> for AnyNode {
    fn from(expression: ExpressionNode) -> (r: AnyNode)
        ensures
            any_view(r) == Node::Expression(expression.value@),
    {
        AnyNode::Expression(Box::new(expression))
    }
}

impl vstd::std_specs::convert::FromSpecImpl<ExpressionNode> for AnyNode {
    open spec fn obeys_from_spec() -> bool {
        true
    }

    open spec fn from_spec(expression: ExpressionNode) -> AnyNode {
        AnyNode::Expression(Box::new(expression))
    }
}

impl From<Vec<ConcatableNode>> for ConcatenatedNode {
    fn from(value: Vec<ConcatableNode>) -> (r: ConcatenatedNode)
        ensures
            r == (ConcatenatedNode { value }),
    {
        ConcatenatedNode { value }
    }
}

impl vstd::std_specs::convert::FromSpecImpl<Vec<ConcatableNode>> for ConcatenatedNode {
    open spec fn obeys_from_spec() -> bool {
        true
    }

    open spec fn from_spec(value: Vec<ConcatableNode>) -> ConcatenatedNode {
        ConcatenatedNode { value }
    }
}

impl From<String> for ValueNode {
    fn from(value: String) -> (r: ValueNode)
        ensures
            value_view(r) == value@,
    {
        ValueNode { value: ValueNodeValue::String(value) }
    }
}

impl vstd::std_specs::convert::FromSpecImpl<String> for ValueNode {
    open spec fn obeys_from_spec() -> bool {
        true
    }

    open spec fn from_spec(value: String) -> ValueNode {
        ValueNode { value: ValueNodeValue::String(value) }
    }
}

impl<'a> From<&'a str> for ValueNode {
    fn from(value: &'a str) -> (r: ValueNode)
        ensures
            value_view(r) == value@,
    {
        ValueNode { value: ValueNodeValue::String(String::from_str(value)) }
    }
}

impl<'a> vstd::std_specs::convert::FromSpecImpl<&'a str> for ValueNode {
    open spec fn obeys_from_spec() -> bool {
        false
    }

    open spec fn from_spec(value: &'a str) -> ValueNode {
        arbitrary()
    }
}

impl From<ValueNode> for ExpressionNode {
    fn from(value: ValueNode) -> (r: ExpressionNode)
        ensures
            r.value@ == value_view(value),
    {
        match value.value {
            ValueNodeValue::String(s) => ExpressionNode { value: s },
        }
    }
}

impl vstd::std_specs::convert::FromSpecImpl<ValueNode> for ExpressionNode {
    open spec fn obeys_from_spec() -> bool {
        true
    }

    open spec fn from_spec(value: ValueNode) -> ExpressionNode {
        match value.value {
            ValueNodeValue::String(s) => ExpressionNode { value: s },
        }
    }
}

impl From<ValueNode> for AnyNode {
    fn from(value: ValueNode) -> (r: AnyNode)
        ensures
            any_view(r) == Node::Value(value_view(value)),
    {
        AnyNode::Value(Box::new(value))
    }
}

impl vstd::std_specs::convert::FromSpecImpl<ValueNode> for AnyNode {
    open spec fn obeys_from_spec() -> bool {
        true
    }

    open spec fn from_spec(value: ValueNode) -> AnyNode {
        AnyNode::Value(Box::new(value))
    }
}

impl From<QueryNode> for AnyNode {
    fn from(query: QueryNode) -> (r: AnyNode)
        ensures
            r == AnyNode::Query(Box::new(query)),
    {
        AnyNode::Query(Box::new(query))
    }
}

impl vstd::std_specs::convert::FromSpecImpl<QueryNode> for AnyNode {
    open spec fn obeys_from_spec() -> bool {
        true
    }

    open spec fn from_spec(query: QueryNode) -> AnyNode {
        AnyNode::Query(Box::new(query))
    }
}

impl QueryNode {
    pub fn new(key: AnyNode, value: Option<AnyNode>) -> (r: QueryNode)
        ensures
            r == (QueryNode { key, value }),
    {
        QueryNode { key, value }
    }
}

impl From<ConcatableNode> for AnyNode {
    fn from(node: ConcatableNode) -> (r: AnyNode)
        ensures
            any_view(r) == concatable_view(node),
    {
        match node {
            ConcatableNode::Path(p) => AnyNode::Path(Box::new(p)),
            ConcatableNode::Value(v) => AnyNode::Value(Box::new(v)),
            ConcatableNode::Expression(e) => AnyNode::Expression(Box::new(e)),
        }
    }
}

impl vstd::std_specs::convert::FromSpecImpl<ConcatableNode> for AnyNode {
    open spec fn obeys_from_spec() -> bool {
        true
    }

    open spec fn from_spec(node: ConcatableNode) -> AnyNode {
        match node {
            ConcatableNode::Path(p) => AnyNode::Path(Box::new(p)),
            ConcatableNode::Value(v) => AnyNode::Value(Box::new(v)),
            ConcatableNode::Expression(e) => AnyNode::Expression(Box::new(e)),
        }
    }
}

impl From<ConcatenatedNode> for AnyNode {
    fn from(node: ConcatenatedNode) -> (r: AnyNode)
        ensures
            any_view(r) == Node::Concatenated(concatables_view(node.value@)),
    {
        AnyNode::Concatenated(Box::new(node))
    }
}

impl vstd::std_specs::convert::FromSpecImpl<ConcatenatedNode> for AnyNode {
    open spec fn obeys_from_spec() -> bool {
        true
    }

    open spec fn from_spec(node: ConcatenatedNode) -> AnyNode {
        AnyNode::Concatenated(Box::new(node))
    }
}

impl From<Vec<AnyNode>> for PathNode {
    fn from(path: Vec<AnyNode>) -> (r: PathNode)
        ensures
            r == (PathNode { path }),
    {
        PathNode { path }
    }
}

impl vstd::std_specs::convert::FromSpecImpl<Vec<AnyNode>> for PathNode {
    open spec fn obeys_from_spec() -> bool {
        true
    }

    open spec fn from_spec(path: Vec<AnyNode>) -> PathNode {
        PathNode { path }
    }
}

impl ConcatenatedNode {
    /// A single node stays as it is; two or more are fused.
    pub fn new(value: Vec<ConcatableNode>) -> (r: ConcatenatedResult)
        requires
            value.len() >= 1,
        ensures
            value.len() == 1 ==> r == ConcatenatedResult::Node(value[0]),
            value.len() >= 2 ==> r == ConcatenatedResult::Concat(ConcatenatedNode { value }),
    {
        if value.len() == 1 {
            let mut value = value;
            return ConcatenatedResult::Node(value.remove(0));
        }
        ConcatenatedResult::Concat(ConcatenatedNode { value })
    }
}

} // verus!
