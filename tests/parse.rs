use binding_parser_rs::{
    parse_binding, parse_result, try_parse, AnyNode, ConcatableNode, ConcatenatedNode,
    ConcatenatedResult, ExpressionNode, ParseError, ParserResult, Path, PathNode, QueryNode,
    ValueNode,
};

fn value(s: &str) -> AnyNode {
    AnyNode::from(ValueNode::from(s))
}

fn expression(s: &str) -> ExpressionNode {
    ExpressionNode::from(ValueNode::from(s))
}

fn assert_results_equal(expected: Path, result: Path) {
    assert_eq!(result.len(), expected.len());
    for (i, node) in result.iter().enumerate() {
        assert_eq!(node, &expected[i]);
    }
}

#[test]
fn basic_empty() {
    let result = parse_binding("").expect("parse_binding failed");
    let expected: Path = vec![];
    assert_results_equal(expected, result);
}

#[test]
fn basic_single() {
    let result = parse_binding("foo").expect("parse_binding failed");
    let expected: Path = vec![AnyNode::from(ValueNode::from("foo"))];
    assert_results_equal(expected, result);
}

#[test]
fn basic_double() {
    let result = parse_binding("foo.bar").expect("parse_binding failed");
    let expected: Path = vec![
        AnyNode::from(ValueNode::from("foo")),
        AnyNode::from(ValueNode::from("bar")),
    ];
    assert_results_equal(expected, result);
}

#[test]
fn trailing_separator_fails() {
    assert_eq!(try_parse("foo."), Err(ParseError::MissingIdentifier));
    assert_eq!(parse_binding("foo."), Err("Expected identifier".to_string()));
}

#[test]
fn expression_segment() {
    let result = parse_binding("{name}").unwrap();
    assert_eq!(result, vec![AnyNode::Expression(Box::new(expression("name")))]);
}

#[test]
fn expression_with_inner_whitespace() {
    let result = parse_binding("{  name }").unwrap();
    assert_eq!(result, vec![AnyNode::Expression(Box::new(expression("name")))]);
}

#[test]
fn nested_path_segment() {
    let result = parse_binding("{{foo.bar}}").unwrap();
    let inner = PathNode::from(vec![value("foo"), value("bar")]);
    assert_eq!(result, vec![AnyNode::Path(Box::new(inner))]);
}

#[test]
fn nested_path_between_segments() {
    let result = parse_binding("a.{{b.c}}.d").unwrap();
    let inner = PathNode::from(vec![value("b"), value("c")]);
    assert_eq!(result, vec![value("a"), AnyNode::Path(Box::new(inner)), value("d")]);
}

#[test]
fn empty_nested_path() {
    let result = parse_binding("{{}}").unwrap();
    assert_eq!(result, vec![AnyNode::Path(Box::new(PathNode::from(vec![])))]);
}

#[test]
fn query_with_value() {
    let result = parse_binding("foo['key'='val']").unwrap();
    let query = QueryNode::new(value("key"), Some(value("val")));
    assert_eq!(result, vec![value("foo"), AnyNode::from(query)]);
}

#[test]
fn query_with_spaces_and_double_equals() {
    let result = parse_binding("foo[ \"key\" == 'val' ]").unwrap();
    let query = QueryNode::new(value("key"), Some(value("val")));
    assert_eq!(result, vec![value("foo"), AnyNode::from(query)]);
}

#[test]
fn query_without_value() {
    let result = parse_binding("foo['key'=]").unwrap();
    let query = QueryNode::new(value("key"), None);
    assert_eq!(result, vec![value("foo"), AnyNode::from(query)]);
}

#[test]
fn bracket_key_only() {
    let result = parse_binding("foo['key'][\"other\"].bar").unwrap();
    assert_eq!(result, vec![value("foo"), value("key"), value("other"), value("bar")]);
}

#[test]
fn quoted_keeps_other_quote() {
    let result = parse_binding("foo[\"it's\"]").unwrap();
    assert_eq!(result, vec![value("foo"), value("it's")]);
}

#[test]
fn empty_quoted_key() {
    let result = parse_binding("foo['']").unwrap();
    assert_eq!(result, vec![value("foo"), value("")]);
}

#[test]
fn concatenated_segment() {
    let result = parse_binding("foo{bar}baz").unwrap();
    let parts = vec![
        ConcatableNode::Value(ValueNode::from("foo")),
        ConcatableNode::Expression(expression("bar")),
        ConcatableNode::Value(ValueNode::from("baz")),
    ];
    match ConcatenatedNode::new(parts) {
        ConcatenatedResult::Concat(c) => assert_eq!(result, vec![AnyNode::from(c)]),
        ConcatenatedResult::Node(_) => panic!("three parts must fuse"),
    }
}

#[test]
fn concatenated_never_holds_one_node() {
    let one = ConcatenatedNode::new(vec![ConcatableNode::Value(ValueNode::from("x"))]);
    assert_eq!(one, ConcatenatedResult::Node(ConcatableNode::Value(ValueNode::from("x"))));
    let result = parse_binding("{x}").unwrap();
    assert!(matches!(result[0], AnyNode::Expression(_)));
    let result = parse_binding("a{x}").unwrap();
    match &result[0] {
        AnyNode::Concatenated(c) => assert!(c.value.len() >= 2),
        _ => panic!("two tokens must fuse"),
    }
}

#[test]
fn identifier_characters() {
    let result = parse_binding("a_b-c@d1.été").unwrap();
    assert_eq!(result, vec![value("a_b-c@d1"), value("été")]);
}

#[test]
fn parsing_is_deterministic() {
    let input = "a.{{b['k'='v']}}.c{d}";
    assert_eq!(parse_binding(input), parse_binding(input));
    assert_eq!(try_parse("a..b"), try_parse("a..b"));
}

#[test]
fn double_separator_is_unexpected() {
    assert_eq!(try_parse("foo..bar"), Err(ParseError::UnexpectedCharacter('.')));
    assert_eq!(parse_binding("foo..bar"), Err("Unexpected character: '.'".to_string()));
}

#[test]
fn leading_separator_is_unexpected() {
    assert_eq!(try_parse(".foo"), Err(ParseError::UnexpectedCharacter('.')));
}

#[test]
fn stray_closing_brace_is_unexpected() {
    assert_eq!(try_parse("foo}"), Err(ParseError::UnexpectedCharacter('}')));
}

#[test]
fn missing_separator_is_mismatch() {
    assert_eq!(
        try_parse("foo bar"),
        Err(ParseError::Mismatch { expected: '.', found: Some(' ') })
    );
    assert_eq!(parse_binding("foo bar"), Err("Expected '.' but found ' '".to_string()));
}

#[test]
fn unclosed_expression() {
    assert_eq!(try_parse("{foo"), Err(ParseError::Mismatch { expected: '}', found: None }));
    assert_eq!(parse_binding("{foo"), Err("Expected '}' but found end of input".to_string()));
}

#[test]
fn empty_expression() {
    assert_eq!(try_parse("{}"), Err(ParseError::MissingIdentifier));
    assert_eq!(try_parse("{ }"), Err(ParseError::MissingIdentifier));
}

#[test]
fn unclosed_nested_path() {
    assert_eq!(try_parse("{{foo}"), Err(ParseError::Mismatch { expected: '}', found: None }));
    assert_eq!(
        try_parse("{{foo}x"),
        Err(ParseError::Mismatch { expected: '}', found: Some('x') })
    );
}

#[test]
fn unquoted_bracket_key() {
    assert_eq!(try_parse("foo[bar]"), Err(ParseError::MissingIdentifier));
}

#[test]
fn unclosed_quote() {
    assert_eq!(try_parse("foo['bar"), Err(ParseError::Mismatch { expected: '\'', found: None }));
}

#[test]
fn unclosed_bracket() {
    assert_eq!(try_parse("foo['bar'"), Err(ParseError::Mismatch { expected: ']', found: None }));
    assert_eq!(
        try_parse("foo['bar'x"),
        Err(ParseError::Mismatch { expected: ']', found: Some('x') })
    );
}

#[test]
fn error_messages() {
    assert_eq!(ParseError::MissingIdentifier.message(), "Expected identifier");
    assert_eq!(ParseError::UnexpectedCharacter('#').message(), "Unexpected character: '#'");
    assert_eq!(
        ParseError::Mismatch { expected: ']', found: Some('x') }.message(),
        "Expected ']' but found 'x'"
    );
}

#[test]
fn tagged_result() {
    match parse_result("foo") {
        ParserResult::Success(s) => {
            assert!(s.success);
            assert_eq!(s.path, vec![value("foo")]);
        },
        ParserResult::Error(_) => panic!("foo parses"),
    }
    match parse_result("#") {
        ParserResult::Error(e) => {
            assert!(!e.success);
            assert_eq!(e.error, "Unexpected character: '#'");
        },
        ParserResult::Success(_) => panic!("# does not parse"),
    }
}
