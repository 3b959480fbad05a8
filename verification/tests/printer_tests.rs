use rome_formatter::config::FormatOptions;
use rome_formatter::config::IndentKind;
use rome_formatter::config::QuoteStyle;
use rome_formatter::doc::Doc;
use rome_formatter::doc::LineKind;
use rome_formatter::doc::cat;
use rome_formatter::doc::group;
use rome_formatter::doc::group_unbreakable;
use rome_formatter::doc::group_with_id;
use rome_formatter::doc::if_broken;
use rome_formatter::doc::if_group_broken;
use rome_formatter::doc::indent;
use rome_formatter::doc::line_break;
use rome_formatter::doc::line_suffix;
use rome_formatter::doc::text;
use rome_formatter::format::format_node;
use rome_formatter::printer::render;
use rome_formatter::syntax::Node;
use rome_formatter::syntax::NodeList;
use rome_formatter::syntax::Token;

fn opts(width: u16) -> FormatOptions {
    FormatOptions::new(width, IndentKind::Space, 2, QuoteStyle::Double).unwrap()
}

fn t(s: &str) -> Doc {
    text(s.to_string())
}

#[test]
fn suffix_content_flushes_at_end_of_document() {
    let d = cat(t("a"), line_suffix(t(" //c")));
    assert_eq!(render(&d, &opts(80)), "a //c");
}

#[test]
fn suffix_content_flushes_before_a_hard_break() {
    let d = cat(t("a"), cat(line_suffix(t(" //c")), cat(line_break(LineKind::Hard), t("b"))));
    assert_eq!(render(&d, &opts(80)), "a //c\nb");
}

#[test]
fn conditional_follows_enclosing_group_mode() {
    let d = |w: u16| {
        let g = group(cat(t("ab"), cat(line_break(LineKind::Soft), if_broken(t("<B>"), t("<F>")))));
        render(&g, &opts(w))
    };
    assert_eq!(d(80), "ab<F>");
    assert_eq!(d(3), "ab\n<B>");
}

#[test]
fn conditional_follows_remembered_group_decision() {
    let d = cat(
        group_with_id(7, t("aaaaaaaa")),
        if_group_broken(7, t("<B>"), t("<F>")),
    );
    assert_eq!(render(&d, &opts(5)), "aaaaaaaa<B>");
    assert_eq!(render(&d, &opts(20)), "aaaaaaaa<F>");
}

#[test]
fn hard_break_forces_enclosing_group() {
    let d = group(cat(t("a"), cat(line_break(LineKind::Hard), t("b"))));
    assert_eq!(render(&d, &opts(80)), "a\nb");
}

#[test]
fn indentation_applies_only_at_line_starts() {
    let d = group(cat(
        t("head"),
        indent(cat(line_break(LineKind::Hard), cat(t("x"), t("y")))),
    ));
    assert_eq!(render(&d, &opts(80)), "head\n  xy");
}

#[test]
fn nested_call_keeps_inner_group_flat_when_it_fits() {
    let atom = |name: &str| Node::Atom(Token::bare(name.to_string()));
    let args = |items: Vec<Node>| {
        let mut list = NodeList::Nil;
        for n in items.into_iter().rev() {
            list = NodeList::Cons(Box::new(n), Box::new(list));
        }
        list
    };
    let inner = Node::Call {
        callee: Box::new(atom("g")),
        lparen: Token::bare("(".to_string()),
        args: args(vec![atom("aaaa"), atom("bbbb")]),
        rparen: Token::bare(")".to_string()),
    };
    let tree = Node::Call {
        callee: Box::new(atom("f")),
        lparen: Token::bare("(".to_string()),
        args: args(vec![inner, atom("cccc")]),
        rparen: Token::bare(")".to_string()),
    };
    assert_eq!(format_node(&tree, &opts(16)), "f(\n  g(aaaa, bbbb),\n  cccc\n)");
    assert_eq!(format_node(&tree, &opts(40)), "f(g(aaaa, bbbb), cccc)");
}

#[test]
fn unbreakable_group_stays_flat_beyond_the_width() {
    let d = group_unbreakable(cat(t("aaaa"), cat(line_break(LineKind::Space), t("bbbb"))));
    assert_eq!(render(&d, &opts(3)), "aaaa bbbb");
}

#[test]
fn forced_break_overrides_an_unbreakable_group() {
    let d = group_unbreakable(cat(t("a"), cat(line_break(LineKind::Hard), t("b"))));
    assert_eq!(render(&d, &opts(80)), "a\nb");
}

#[test]
fn group_measurement_includes_what_follows_on_the_line() {
    // The group alone is five columns wide, the sibling text three more: at
    // width seven the fitting rule must count the sibling and break the
    // group, at width eight it must not.
    let d = || {
        cat(
            group(cat(t("ab"), cat(line_break(LineKind::Space), t("cd")))),
            t("XYZ"),
        )
    };
    assert_eq!(render(&d(), &opts(7)), "ab\ncdXYZ");
    assert_eq!(render(&d(), &opts(8)), "ab cdXYZ");
}
