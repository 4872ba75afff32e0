use nix_lens::ast::{
    Assert, AttrSet, BinaryOperation, Expression, HasAttribute, Identifier, Integer, List, Null,
    PropertyAccess, Throw, UnaryOperation,
};
use nix_lens::ast::Error;
use nix_lens::errors::{RenderError, SyntaxError};
use nix_lens::operators::Operator;
use nix_lens::parser::parse;
use nix_lens::position::{Position, Span};

fn roundtrip(text: &str) {
    let first = parse(text).unwrap();
    let rendered = first.render().unwrap();
    let second = parse(&rendered).unwrap();
    assert_eq!(first.with_unit_spans(), second.with_unit_spans());
}

#[test]
fn addition_scenario() {
    let tree = parse("1 + 2").unwrap();
    let shape = Expression::BinaryOperation(
        BinaryOperation::new(
            Expression::Integer(Integer::new("1".to_string())),
            Operator::Addition,
            Expression::Integer(Integer::new("2".to_string())),
        )
        .unwrap(),
    );
    assert_eq!(tree.with_unit_spans(), shape);
    let expected = Expression::BinaryOperation(
        BinaryOperation::new_span(
            Expression::Integer(Integer::new_span(
                "1".to_string(),
                Span::new(Position::new(1, 1), Position::new(1, 2)),
            )),
            Operator::Addition,
            Expression::Integer(Integer::new_span(
                "2".to_string(),
                Span::new(Position::new(1, 5), Position::new(1, 6)),
            )),
            Span::new(Position::new(1, 1), Position::new(1, 6)),
        )
        .unwrap(),
    );
    assert_eq!(tree, expected);
    assert_eq!(tree.render().unwrap(), "(1 + 2)");
}

#[test]
fn let_in_scenario() {
    let tree = parse("let x = 1; in x").unwrap();
    assert_eq!(tree.render().unwrap(), "let x = 1; in x");
}

#[test]
fn list_scenario() {
    let tree = parse("[a, b]").unwrap();
    assert_eq!(tree.render().unwrap(), "[a, b]");
}

#[test]
fn recursive_attrset_scenario() {
    let tree = parse("rec { a = 1; }").unwrap();
    assert_eq!(tree.render().unwrap(), "rec { a = 1; }");
    let plain = parse("{ a = 1; }").unwrap();
    assert_eq!(plain.render().unwrap(), "{ a = 1; }");
}

#[test]
fn with_scenario() {
    let tree = parse("with pkgs; [hello]").unwrap();
    assert_eq!(tree.render().unwrap(), "with pkgs; [hello]");
}

#[test]
fn destructured_argument_default_scenario() {
    let arg = nix_lens::ast::FunctionHeadDestructuredArgument::new(
        "name".to_string(),
        Some(Expression::Integer(Integer::new("2".to_string()))),
    );
    assert_eq!(arg.render().unwrap(), "name ? 2");
}

#[test]
fn unterminated_string_is_a_syntax_error() {
    assert!(parse("\"unterminated").is_err());
    assert!(parse("\"ab${x}").is_err());
}

#[test]
fn round_trips_are_stable() {
    roundtrip("1 + 2");
    roundtrip("foo");
    roundtrip("let x = 1; in x");
    roundtrip("[a, b]");
    roundtrip("[]");
    roundtrip("{ a = 1; }");
    roundtrip("rec { a = 1; b = x; }");
    roundtrip("f: x");
    roundtrip("f x y");
    roundtrip("if a then b else c");
    roundtrip("with pkgs; [hello]");
    roundtrip("1 + 2 * 3 - 4");
    roundtrip("!a");
    roundtrip("-5");
    roundtrip("a.b.c");
    roundtrip("3.14");
    roundtrip("true");
    roundtrip("null");
    roundtrip("<nixpkgs>");
    roundtrip("./foo/bar");
    roundtrip("../up/two");
    roundtrip("/etc/nixos");
    roundtrip("./a/${x}/b");
    roundtrip("http://example.org/x");
    roundtrip("mailto:someone@host");
}

#[test]
fn binary_construction_accepts_exactly_the_binary_operators() {
    let binary_ops = vec![
        Operator::Addition,
        Operator::Concatenation,
        Operator::EqualTo,
        Operator::GreaterThan,
        Operator::GreaterThanOrEqualTo,
        Operator::Division,
        Operator::Implication,
        Operator::LessThan,
        Operator::LessThanOrEqualTo,
        Operator::LogicalAnd,
        Operator::LogicalOr,
        Operator::Multiplication,
        Operator::NotEqualTo,
        Operator::Subtraction,
        Operator::Update,
    ];
    for op in binary_ops {
        assert!(op.is_binary());
        assert!(!op.is_unary());
        let built = BinaryOperation::new(
            Expression::Integer(Integer::new("1".to_string())),
            op,
            Expression::Integer(Integer::new("2".to_string())),
        );
        assert!(built.is_ok());
        let unary = UnaryOperation::new(op, Expression::Integer(Integer::new("1".to_string())));
        assert!(unary.is_err());
    }
}

#[test]
fn unary_construction_accepts_exactly_the_unary_operators() {
    for op in vec![Operator::Not, Operator::Negate] {
        assert!(op.is_unary());
        assert!(!op.is_binary());
        let built = UnaryOperation::new(op, Expression::Integer(Integer::new("1".to_string())));
        assert!(built.is_ok());
        let binary = BinaryOperation::new(
            Expression::Integer(Integer::new("1".to_string())),
            op,
            Expression::Integer(Integer::new("2".to_string())),
        );
        assert!(binary.is_err());
    }
}

#[test]
fn attrset_prefix_follows_the_recursive_flag() {
    let rec = AttrSet::new(true, vec![]).render().unwrap();
    assert!(rec.starts_with("rec {"));
    let plain = AttrSet::new(false, vec![]).render().unwrap();
    assert!(plain.starts_with("{"));
    assert!(!plain.starts_with("rec {"));
}

#[test]
fn property_access_renders_both_forms() {
    let plain = PropertyAccess::new(
        Expression::Identifier(Identifier::new("a".to_string())),
        vec![Expression::Identifier(Identifier::new("b".to_string()))],
        None,
    );
    assert_eq!(plain.render().unwrap(), "a.b");

    let with_default = PropertyAccess::new(
        Expression::Identifier(Identifier::new("a".to_string())),
        vec![Expression::Identifier(Identifier::new("b".to_string()))],
        Some(Expression::Identifier(Identifier::new("c".to_string()))),
    );
    assert_eq!(with_default.render().unwrap(), "a.?b.or(c)");

    assert_eq!(parse("a.b.c").unwrap().render().unwrap(), "a.b.c");
    assert_eq!(parse("a.b or c").unwrap().render().unwrap(), "a.?b.or(c)");
}

#[test]
fn error_placeholders_fail_to_render() {
    let placeholder = Expression::Error(Error::new("broken subtree".to_string()));
    match placeholder.render() {
        Err(RenderError::InvalidAst(message)) => assert_eq!(message, "broken subtree"),
        other => panic!("expected an InvalidAst failure, got {:?}", other),
    }

    let inside = Expression::List(List::new(vec![
        Expression::Integer(Integer::new("1".to_string())),
        Expression::Error(Error::new("second".to_string())),
    ]));
    match inside.render() {
        Err(RenderError::InvalidAst(message)) => assert_eq!(message, "second"),
        other => panic!("expected an InvalidAst failure, got {:?}", other),
    }
}

#[test]
fn error_descriptions() {
    let render_error = RenderError::InvalidAst("x".to_string());
    assert_eq!(render_error.describe(), "Invalid AST: x");
    assert_eq!(
        RenderError::InvalidNode("n".to_string()).describe(),
        "Invalid node: n"
    );
    assert_eq!(
        RenderError::UnexpectedError("u".to_string()).describe(),
        "Unexpected render error: u"
    );
    let syntax_error = SyntaxError {
        message: "m".to_string(),
    };
    assert_eq!(syntax_error.describe(), "Syntax error: m");
}

#[test]
fn syntax_errors_on_malformed_input() {
    assert!(parse("").is_err());
    assert!(parse(")").is_err());
    assert!(parse("let x = ; in x").is_err());
    assert!(parse("a b )").is_err());
    assert!(parse("if a then b").is_err());
    assert!(parse("{ a = 1 }").is_err());
}

#[test]
fn assert_and_throw_render() {
    let bare = Assert::new(
        Expression::Identifier(Identifier::new("cond".to_string())),
        None,
    );
    assert_eq!(bare.render().unwrap(), "assert cond");

    let with_message = Assert::new(
        Expression::Identifier(Identifier::new("cond".to_string())),
        Some(Expression::Identifier(Identifier::new("msg".to_string()))),
    );
    assert_eq!(with_message.render().unwrap(), "assert cond with message msg");

    assert_eq!(
        parse("assert a; b").unwrap().render().unwrap(),
        "assert a with message b"
    );

    let thrown = Throw::new(Expression::Identifier(Identifier::new("oops".to_string())));
    assert_eq!(thrown.render().unwrap(), "throw oops");
    assert_eq!(parse("throw oops").unwrap().render().unwrap(), "throw oops");
}

#[test]
fn has_attribute_renders_like_a_path() {
    let h = HasAttribute::new(
        Expression::Identifier(Identifier::new("a".to_string())),
        vec![Expression::Identifier(Identifier::new("b".to_string()))],
    );
    assert_eq!(h.render().unwrap(), "a.b");
}

#[test]
fn strings_keep_their_segmentation() {
    let tree = parse("\"ab${x}cd\"").unwrap();
    match &tree {
        Expression::NixString(ns) => {
            assert_eq!(ns.parts.len(), 3);
            assert!(matches!(ns.parts[0], Expression::PartRaw(_)));
            assert!(matches!(ns.parts[1], Expression::PartInterpolation(_)));
            assert!(matches!(ns.parts[2], Expression::PartRaw(_)));
        },
        other => panic!("expected a string node, got {:?}", other),
    }
    assert_eq!(tree.render().unwrap(), "ab${x}cd");
}

#[test]
fn inherit_yields_one_binding_per_name() {
    let tree = parse("{ inherit a b; }").unwrap();
    match &tree {
        Expression::AttrSet(set) => {
            assert_eq!(set.bindings.len(), 2);
            assert!(matches!(set.bindings[0], Expression::BindingInherit(_)));
            assert!(matches!(set.bindings[1], Expression::BindingInherit(_)));
        },
        other => panic!("expected an attribute set, got {:?}", other),
    }
    assert_eq!(tree.render().unwrap(), "{ inherit a, inherit b }");

    let sourced = parse("{ inherit (s) a; }").unwrap();
    assert_eq!(sourced.render().unwrap(), "{ inherit (s) a }");
}

#[test]
fn destructured_heads_capture_defaults_and_ellipsis() {
    let tree = parse("{ a, b ? 2, ... }: x").unwrap();
    match &tree {
        Expression::Function(f) => match f.head.as_ref() {
            Expression::FunctionHeadDestructured(head) => {
                assert!(head.ellipsis);
                assert_eq!(head.arguments.len(), 2);
                assert_eq!(head.arguments[0].identifier, "a");
                assert!(head.arguments[0].default.is_none());
                assert_eq!(head.arguments[1].identifier, "b");
                assert!(head.arguments[1].default.is_some());
            },
            other => panic!("expected a destructured head, got {:?}", other),
        },
        other => panic!("expected a function, got {:?}", other),
    }
    assert_eq!(tree.render().unwrap(), "ab ? 2: x");
}

#[test]
fn application_collects_juxtaposed_arguments() {
    let tree = parse("f a b").unwrap();
    match &tree {
        Expression::FunctionApplication(app) => assert_eq!(app.arguments.len(), 2),
        other => panic!("expected an application, got {:?}", other),
    }
    assert_eq!(tree.render().unwrap(), "f a b");
}

#[test]
fn literals_parse_and_render() {
    assert_eq!(parse("3.14").unwrap().render().unwrap(), "3.14");
    assert_eq!(parse("true").unwrap().render().unwrap(), "true");
    assert_eq!(parse("false").unwrap().render().unwrap(), "false");
    assert_eq!(parse("null").unwrap().render().unwrap(), "null");
    assert_eq!(parse("<nixpkgs>").unwrap().render().unwrap(), "<nixpkgs>");
    assert_eq!(Null::new().render(), "null");
    assert_eq!(
        parse("(1)").unwrap().with_unit_spans(),
        Expression::Integer(Integer::new("1".to_string()))
    );
}

#[test]
fn operator_chains_fold_from_the_left() {
    assert_eq!(
        parse("1 + 2 * 3").unwrap().render().unwrap(),
        "((1 + 2) * 3)"
    );
    assert_eq!(parse("a => b").unwrap().render().unwrap(), "(a => b)");
    assert_eq!(parse("a := b").unwrap().render().unwrap(), "(a := b)");
    assert_eq!(parse("a ++ b").unwrap().render().unwrap(), "(a ++ b)");
}

#[test]
fn positions_describe_themselves() {
    let position = Position::new(3, 7);
    assert_eq!(position.debug(), "Position(3, 7)");
    let span = Span::new(Position::new(1, 2), Position::new(3, 4));
    assert_eq!(span.debug(), "Span(Position(1, 2), Position(3, 4))");
    assert_eq!(Position::new(-5, 0).debug(), "Position(-5, 0)");
    assert_eq!(
        Position::new(i64::MIN, i64::MAX).debug(),
        "Position(-9223372036854775808, 9223372036854775807)"
    );
}

#[test]
fn empty_collections_render() {
    assert_eq!(List::new(vec![]).render().unwrap(), "[]");
    assert_eq!(AttrSet::new(false, vec![]).render().unwrap(), "{  }");
}

#[test]
fn paths_parse_and_render() {
    assert_eq!(parse("./foo/bar").unwrap().render().unwrap(), "./foo/bar");
    assert_eq!(
        parse("/etc/nixos/configuration.nix").unwrap().render().unwrap(),
        "/etc/nixos/configuration.nix"
    );
    assert_eq!(parse("../up/one").unwrap().render().unwrap(), "../up/one");
    assert_eq!(parse("./a/${x}/b").unwrap().render().unwrap(), "./a/${x}/b");
    match parse("./foo/bar").unwrap() {
        Expression::Path(p) => assert_eq!(p.parts.len(), 3),
        other => panic!("expected a path, got {:?}", other),
    }
    match parse("/etc/nixos").unwrap() {
        Expression::Path(p) => assert_eq!(p.parts.len(), 3),
        other => panic!("expected a path, got {:?}", other),
    }
}

#[test]
fn uris_parse_and_render() {
    assert_eq!(
        parse("http://example.org/x").unwrap().render().unwrap(),
        "http://example.org/x"
    );
    assert!(matches!(parse("mailto:someone@host").unwrap(), Expression::Uri(_)));
    assert!(matches!(parse("f:x").unwrap(), Expression::Uri(_)));
    // With whitespace after the colon the same text is a function literal.
    assert!(matches!(parse("f: x").unwrap(), Expression::Function(_)));
}

#[test]
fn indented_strings_parse_and_render() {
    let tree = parse("''ab${x}cd''").unwrap();
    match &tree {
        Expression::IndentedString(t) => {
            assert_eq!(t.parts.len(), 3);
            assert!(matches!(t.parts[0], Expression::PartRaw(_)));
            assert!(matches!(t.parts[1], Expression::PartInterpolation(_)));
            assert!(matches!(t.parts[2], Expression::PartRaw(_)));
        },
        other => panic!("expected an indented string, got {:?}", other),
    }
    assert_eq!(tree.render().unwrap(), "ab${x}cd");
    assert!(parse("''unterminated").is_err());
}

#[test]
fn parser_computes_source_positions() {
    match parse("  foo").unwrap() {
        Expression::Identifier(id) => {
            assert_eq!(id.span, Span::new(Position::new(1, 3), Position::new(1, 6)));
        },
        other => panic!("expected an identifier, got {:?}", other),
    }
    match parse("let x = 1;\n in x").unwrap() {
        Expression::LetIn(l) => {
            assert_eq!(l.span, Span::new(Position::new(1, 1), Position::new(2, 6)));
        },
        other => panic!("expected a let binding, got {:?}", other),
    }
}

#[test]
fn syntax_error_messages_name_the_position() {
    assert_eq!(
        parse(")").unwrap_err().message,
        "expected an expression at line 1, column 1"
    );
    assert_eq!(
        parse("a b )").unwrap_err().message,
        "unexpected text after the expression at line 1, column 5"
    );
    assert_eq!(
        parse("x\n )").unwrap_err().message,
        "unexpected text after the expression at line 2, column 2"
    );
}
