use rome_formatter::config::Configuration;
use rome_formatter::config::ConfigurationError;
use rome_formatter::config::FormatOptions;
use rome_formatter::config::IndentKind;
use rome_formatter::config::QuoteStyle;
use rome_formatter::format::format_node;
use rome_formatter::format::format_with_configuration;
use rome_formatter::format::verbatim_regions;
use rome_formatter::mapping::normalize_quotes;
use rome_formatter::syntax::Node;
use rome_formatter::syntax::NodeList;
use rome_formatter::syntax::Token;
use rome_formatter::syntax::TriviaPiece;

fn opts(width: u16) -> FormatOptions {
    FormatOptions::new(width, IndentKind::Space, 2, QuoteStyle::Double).unwrap()
}

fn atom(name: &str) -> Node {
    Node::Atom(Token::bare(name.to_string()))
}

fn args(items: Vec<Node>) -> NodeList {
    let mut list = NodeList::Nil;
    for n in items.into_iter().rev() {
        list = NodeList::Cons(Box::new(n), Box::new(list));
    }
    list
}

fn call(callee: &str, items: Vec<Node>) -> Node {
    Node::Call {
        callee: Box::new(atom(callee)),
        lparen: Token::bare("(".to_string()),
        args: args(items),
        rparen: Token::bare(")".to_string()),
    }
}

#[test]
fn call_breaks_at_width_ten() {
    let tree = call("f", vec![atom("aaaa"), atom("bbbb"), atom("cccc")]);
    let out = format_node(&tree, &opts(10));
    assert_eq!(out, "f(\n  aaaa,\n  bbbb,\n  cccc\n)");
}

#[test]
fn call_stays_flat_at_width_forty() {
    let tree = call("f", vec![atom("aaaa"), atom("bbbb"), atom("cccc")]);
    let out = format_node(&tree, &opts(40));
    assert_eq!(out, "f(aaaa, bbbb, cccc)");
}

#[test]
fn fill_wraps_densely() {
    let tree = call("f", vec![atom("aaaa"), atom("bbbb"), atom("cccc"), atom("dddd")]);
    let out = format_node(&tree, &opts(14));
    assert_eq!(out, "f(\n  aaaa, bbbb,\n  cccc, dddd\n)");
}

#[test]
fn empty_block_with_dangling_comment() {
    let tree = Node::Block {
        lbrace: Token::bare("{".to_string()),
        stmts: NodeList::Nil,
        rbrace: Token {
            text: "}".to_string(),
            leading: vec![TriviaPiece::Comment("/* c */".to_string())],
            trailing: vec![],
        },
    };
    let out = format_node(&tree, &opts(80));
    assert_eq!(out, "{\n  /* c */\n}");
}

#[test]
fn empty_block_without_comment() {
    let tree = Node::Block {
        lbrace: Token::bare("{".to_string()),
        stmts: NodeList::Nil,
        rbrace: Token::bare("}".to_string()),
    };
    let out = format_node(&tree, &opts(80));
    assert_eq!(out, "{}");
}

#[test]
fn reformat_of_broken_call_is_identical() {
    // The tree a parser would build from "f(\n  aaaa,\n  bbbb,\n  cccc\n)":
    // the same tokens, with the emitted line breaks as leading trivia.
    let arg = |name: &str| {
        Node::Atom(Token {
            text: name.to_string(),
            leading: vec![TriviaPiece::Lines(1)],
            trailing: vec![],
        })
    };
    let first = format_node(
        &call("f", vec![atom("aaaa"), atom("bbbb"), atom("cccc")]),
        &opts(10),
    );
    let reparsed = Node::Call {
        callee: Box::new(atom("f")),
        lparen: Token::bare("(".to_string()),
        args: args(vec![arg("aaaa"), arg("bbbb"), arg("cccc")]),
        rparen: Token {
            text: ")".to_string(),
            leading: vec![TriviaPiece::Lines(1)],
            trailing: vec![],
        },
    };
    let second = format_node(&reparsed, &opts(10));
    assert_eq!(first, second);
}

#[test]
fn reformat_of_dangling_comment_block_is_identical() {
    let tree = Node::Block {
        lbrace: Token::bare("{".to_string()),
        stmts: NodeList::Nil,
        rbrace: Token {
            text: "}".to_string(),
            leading: vec![TriviaPiece::Comment("/* c */".to_string())],
            trailing: vec![],
        },
    };
    let first = format_node(&tree, &opts(80));
    let reparsed = Node::Block {
        lbrace: Token::bare("{".to_string()),
        stmts: NodeList::Nil,
        rbrace: Token {
            text: "}".to_string(),
            leading: vec![
                TriviaPiece::Lines(1),
                TriviaPiece::Comment("/* c */".to_string()),
                TriviaPiece::Lines(1),
            ],
            trailing: vec![],
        },
    };
    let second = format_node(&reparsed, &opts(80));
    assert_eq!(first, second);
}

fn block_with_gap(gap: u32) -> Node {
    Node::Block {
        lbrace: Token::bare("{".to_string()),
        stmts: args(vec![
            atom("a"),
            Node::Atom(Token {
                text: "b".to_string(),
                leading: vec![TriviaPiece::Lines(gap)],
                trailing: vec![],
            }),
        ]),
        rbrace: Token::bare("}".to_string()),
    }
}

#[test]
fn many_blank_lines_collapse_to_one() {
    let out = format_node(&block_with_gap(5), &opts(80));
    assert_eq!(out, "{\n  a\n\n  b\n}");
    assert_eq!(out, format_node(&block_with_gap(2), &opts(80)));
}

#[test]
fn single_line_break_keeps_no_blank_line() {
    let out = format_node(&block_with_gap(1), &opts(80));
    assert_eq!(out, "{\n  a\n  b\n}");
    assert_eq!(out, format_node(&block_with_gap(0), &opts(80)));
}

#[test]
fn trailing_comment_lands_at_end_of_line() {
    let tree = Node::Block {
        lbrace: Token::bare("{".to_string()),
        stmts: args(vec![Node::Atom(Token {
            text: "a".to_string(),
            leading: vec![],
            trailing: vec![TriviaPiece::Comment("// t".to_string())],
        })]),
        rbrace: Token::bare("}".to_string()),
    };
    let out = format_node(&tree, &opts(80));
    assert_eq!(out, "{\n  a // t\n}");
}

#[test]
fn leading_comment_stays_on_its_own_line() {
    let tree = Node::Block {
        lbrace: Token::bare("{".to_string()),
        stmts: args(vec![Node::Atom(Token {
            text: "a".to_string(),
            leading: vec![
                TriviaPiece::Lines(1),
                TriviaPiece::Comment("// lead".to_string()),
                TriviaPiece::Lines(1),
            ],
            trailing: vec![],
        })]),
        rbrace: Token::bare("}".to_string()),
    };
    let out = format_node(&tree, &opts(80));
    assert_eq!(out, "{\n  // lead\n  a\n}");
}

#[test]
fn raw_region_is_reproduced_verbatim() {
    let tree = Node::Raw { text: "@#$ not parseable $#@".to_string() };
    let out = format_node(&tree, &opts(10));
    assert_eq!(out, "@#$ not parseable $#@");
}

#[test]
fn empty_module_body_formats_as_its_semicolon() {
    let tree = Node::EmptyModuleBody { semicolon: Token::bare(";".to_string()) };
    let out = format_node(&tree, &opts(80));
    assert_eq!(out, ";");
}

#[test]
fn quotes_are_normalized_when_safe() {
    let out = normalize_quotes(&"'abc'".to_string(), QuoteStyle::Double);
    assert_eq!(out, "\"abc\"");
}

#[test]
fn quotes_stay_when_body_holds_preferred_quote() {
    let out = normalize_quotes(&"'say \"hi\"'".to_string(), QuoteStyle::Double);
    assert_eq!(out, "'say \"hi\"'");
}

#[test]
fn quotes_stay_when_body_holds_backslash() {
    let out = normalize_quotes(&"'a\\n'".to_string(), QuoteStyle::Double);
    assert_eq!(out, "'a\\n'");
}

#[test]
fn string_literal_is_normalized_in_a_tree() {
    let tree = Node::StringLit(Token::bare("'abc'".to_string()));
    let out = format_node(&tree, &opts(80));
    assert_eq!(out, "\"abc\"");
}

#[test]
fn tab_indentation_is_used_when_configured() {
    let tree = call("f", vec![atom("aaaa"), atom("bbbb")]);
    let o = FormatOptions::new(6, IndentKind::Tab, 4, QuoteStyle::Double).unwrap();
    let out = format_node(&tree, &o);
    assert_eq!(out, "f(\n\taaaa,\n\tbbbb\n)");
}

#[test]
fn formatter_disabled_flag_is_read() {
    let mut cfg = Configuration::default();
    assert!(!cfg.is_formatter_disabled());
    cfg.formatter.enabled = false;
    assert!(cfg.is_formatter_disabled());
}

#[test]
fn non_root_configuration_is_rejected() {
    let cfg = Configuration::default();
    let r = format_with_configuration(&atom("a"), &cfg);
    assert_eq!(r, Err(ConfigurationError::NotRoot));
    assert_eq!(
        ConfigurationError::NotRoot.message(),
        "the main configuration file, rome.json, must have the field 'root' set to `true`"
    );
}

#[test]
fn zero_width_configuration_is_rejected() {
    let mut cfg = Configuration::default();
    cfg.root = true;
    cfg.formatter.line_width = 0;
    let r = format_with_configuration(&atom("a"), &cfg);
    assert_eq!(r, Err(ConfigurationError::InvalidLineWidth));
    assert_eq!(
        ConfigurationError::InvalidLineWidth.message(),
        "the maximum line width must be a positive number"
    );
}

#[test]
fn valid_configuration_formats() {
    let mut cfg = Configuration::default();
    cfg.root = true;
    let r = format_with_configuration(&call("f", vec![atom("x")]), &cfg);
    assert_eq!(r, Ok("f(x)".to_string()));
}

#[test]
fn default_configuration_matches_documented_values() {
    let cfg = Configuration::default();
    assert!(!cfg.root);
    assert!(cfg.formatter.enabled);
    assert_eq!(cfg.formatter.line_width, 80);
    assert_eq!(cfg.formatter.indent_kind, IndentKind::Space);
    assert_eq!(cfg.formatter.indent_size, 2);
    assert_eq!(cfg.javascript.quote_style, QuoteStyle::Double);
}

#[test]
fn comment_on_closing_paren_is_kept() {
    let tree = Node::Call {
        callee: Box::new(atom("f")),
        lparen: Token::bare("(".to_string()),
        args: args(vec![atom("x")]),
        rparen: Token {
            text: ")".to_string(),
            leading: vec![
                TriviaPiece::Lines(1),
                TriviaPiece::Comment("// why".to_string()),
                TriviaPiece::Lines(1),
            ],
            trailing: vec![],
        },
    };
    // The comment carries a forced break, so the group cannot stay flat.
    let out = format_node(&tree, &opts(80));
    assert_eq!(out, "f(\n  x\n// why\n)");
}

#[test]
fn dangling_comments_keep_one_blank_line_between_them() {
    let tree = Node::Block {
        lbrace: Token::bare("{".to_string()),
        stmts: NodeList::Nil,
        rbrace: Token {
            text: "}".to_string(),
            leading: vec![
                TriviaPiece::Comment("/* a */".to_string()),
                TriviaPiece::Lines(4),
                TriviaPiece::Comment("/* b */".to_string()),
            ],
            trailing: vec![],
        },
    };
    let out = format_node(&tree, &opts(80));
    assert_eq!(out, "{\n  /* a */\n\n  /* b */\n}");
}

#[test]
fn blank_line_before_a_commented_statement_is_kept() {
    let tree = Node::Block {
        lbrace: Token::bare("{".to_string()),
        stmts: args(vec![
            atom("a"),
            Node::Atom(Token {
                text: "b".to_string(),
                leading: vec![
                    TriviaPiece::Lines(3),
                    TriviaPiece::Comment("// note".to_string()),
                    TriviaPiece::Lines(1),
                ],
                trailing: vec![],
            }),
        ]),
        rbrace: Token::bare("}".to_string()),
    };
    let out = format_node(&tree, &opts(80));
    assert_eq!(out, "{\n  a\n\n  // note\n  b\n}");
}

#[test]
fn verbatim_regions_are_collected_in_order() {
    let tree = Node::Block {
        lbrace: Token::bare("{".to_string()),
        stmts: args(vec![
            Node::Raw { text: "??one??".to_string() },
            atom("a"),
            Node::Raw { text: "??two??".to_string() },
        ]),
        rbrace: Token::bare("}".to_string()),
    };
    assert_eq!(verbatim_regions(&tree), vec!["??one??".to_string(), "??two??".to_string()]);
    assert_eq!(verbatim_regions(&atom("a")), Vec::<String>::new());
}
