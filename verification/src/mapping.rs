//! The node-to-document mapping: one rule per syntax construct.
//!
//! Every rule builds its Document IR fragment from its child fragments and
//! from the tokens it owns; shape is chosen by syntactic category alone, and
//! the width decision is left entirely to the printer. A node the parser
//! marked as erroneous degrades to its verbatim source text.

use vstd::prelude::*;

use crate::config::FormatOptions;
use crate::config::QuoteStyle;
use crate::doc::Doc;
use crate::doc::DocV;
use crate::doc::FillList;
use crate::doc::FillV;
use crate::doc::LineKind;
use crate::doc::cat;
use crate::doc::fill;
use crate::doc::fill_last;
use crate::doc::fill_more;
use crate::doc::fill_nil;
use crate::doc::group;
use crate::doc::indent;
use crate::doc::line_break;
use crate::doc::nil;
use crate::doc::text;
use crate::syntax::Node;
use crate::syntax::NodeList;
use crate::syntax::NodeListV;
use crate::syntax::NodeV;
use crate::trivia::blank_before;
use crate::trivia::dangling_docs;
use crate::trivia::has_comment;
use crate::trivia::lead_docs;
use crate::trivia::token_comments;
use crate::trivia::token_docv;
use crate::trivia::token_docv_no_lead;
use crate::trivia::trail_docs;
use crate::trivia::build_dangling_docs;
use crate::trivia::format_token;
use crate::trivia::format_token_no_lead;
use crate::trivia::leading_blank;
use crate::trivia::run_has_comment;

verus! {

/// The quote character a style prefers.
pub open spec fn quote_char(q: QuoteStyle) -> char {
    match q {
        QuoteStyle::Double => '"',
        QuoteStyle::Single => '\'',
    }
}

/// The quote character a style replaces.
pub open spec fn other_quote(q: QuoteStyle) -> char {
    match q {
        QuoteStyle::Double => '\'',
        QuoteStyle::Single => '"',
    }
}

/// Normalises a string literal's quotes: when the literal is wrapped in the
/// unpreferred quote character and its body holds neither the preferred one
/// nor a backslash, the wrapping is swapped; any other literal is kept
/// verbatim.
pub open spec fn norm_quotes(s: Seq<char>, q: QuoteStyle) -> Seq<char> {
    let inner = s.subrange(1, s.len() - 1);
    if s.len() >= 2 && s[0] == other_quote(q) && s[s.len() - 1] == other_quote(q)
        && !inner.contains(quote_char(q)) && !inner.contains('\\') {
        seq![quote_char(q)] + inner + seq![quote_char(q)]
    } else {
        s
    }
}

/// Applies [`norm_quotes`] to a literal's text.
pub fn normalize_quotes(s: &String, q: QuoteStyle) -> (r: String)
    ensures
        r@ == norm_quotes(s@, q),
{
    let n = s.as_str().unicode_len();
    if n < 2 {
        return s.clone();
    }
    let oq: char = match q {
        QuoteStyle::Double => '\'',
        QuoteStyle::Single => '"',
    };
    let first = s.as_str().get_char(0);
    let last = s.as_str().get_char(n - 1);
    if first != oq || last != oq {
        return s.clone();
    }
    let pq: char = match q {
        QuoteStyle::Double => '"',
        QuoteStyle::Single => '\'',
    };
    let mut i: usize = 1;
    while i < n - 1
        invariant
            1 <= i <= n - 1,
            n == s@.len(),
            n >= 2,
            forall|j: int| 1 <= j < i ==> s@[j] != quote_char(q) && s@[j] != '\\',
            pq == quote_char(q),
            oq == other_quote(q),
        decreases n - i,
    {
        let c = s.as_str().get_char(i);
        if c == pq || c == '\\' {
            proof {
                let inner = s@.subrange(1, s@.len() - 1);
                assert(inner[i - 1] == s@[i as int]);
                assert(inner.contains(s@[i as int]));
            }
            return s.clone();
        }
        i = i + 1;
    }
    proof {
        let inner = s@.subrange(1, s@.len() - 1);
        assert(forall|k: int|
            0 <= k < inner.len() ==> inner[k] == s@[k + 1] && inner[k] != quote_char(q)
                && inner[k] != '\\');
        assert(!inner.contains(quote_char(q)));
        assert(!inner.contains('\\'));
    }
    let qs: &str = match q {
        QuoteStyle::Double => "\"",
        QuoteStyle::Single => "'",
    };
    proof {
        reveal_strlit("\"");
        reveal_strlit("'");
        assert(qs@ =~= seq![quote_char(q)]);
    }
    let body = s.as_str().substring_char(1, n - 1);
    let mut r = String::new();
    r.append(qs);
    r.append(body);
    r.append(qs);
    proof {
        assert(r@ =~= norm_quotes(s@, q));
    }
    r
}

/// Whether the node's first token asks for a blank line above the node.
pub open spec fn node_blank(n: NodeV) -> bool
    decreases n,
{
    match n {
        NodeV::Atom(t) => blank_before(t.leading),
        NodeV::StringLit(t) => blank_before(t.leading),
        NodeV::Call { callee, .. } => node_blank(*callee),
        NodeV::Block { lbrace, .. } => blank_before(lbrace.leading),
        NodeV::EmptyModuleBody { semicolon } => blank_before(semicolon.leading),
        NodeV::Raw { .. } => false,
    }
}

/// Reads [`node_blank`] off a tree.
pub fn node_leading_blank(n: &Node) -> (r: bool)
    ensures
        r == node_blank(n@),
    decreases *n,
{
    match n {
        Node::Atom(t) => leading_blank(&t.leading),
        Node::StringLit(t) => leading_blank(&t.leading),
        Node::Call { callee, .. } => node_leading_blank(callee),
        Node::Block { lbrace, .. } => leading_blank(&lbrace.leading),
        Node::EmptyModuleBody { semicolon } => leading_blank(&semicolon.leading),
        Node::Raw { .. } => false,
    }
}

/// All comment texts of the tree, in source order.
pub open spec fn node_comments(n: NodeV) -> Seq<Seq<char>>
    decreases n,
{
    match n {
        NodeV::Atom(t) => token_comments(t),
        NodeV::StringLit(t) => token_comments(t),
        NodeV::Call { callee, lparen, args, rparen } => node_comments(*callee) + token_comments(
            lparen,
        ) + list_comments(args) + token_comments(rparen),
        NodeV::Block { lbrace, stmts, rbrace } => token_comments(lbrace) + list_comments(stmts)
            + token_comments(rbrace),
        NodeV::EmptyModuleBody { semicolon } => token_comments(semicolon),
        NodeV::Raw { .. } => Seq::empty(),
    }
}

/// All comment texts of a node list, in source order.
pub open spec fn list_comments(l: NodeListV) -> Seq<Seq<char>>
    decreases l,
{
    match l {
        NodeListV::Nil => Seq::empty(),
        NodeListV::Cons(n, rest) => node_comments(*n) + list_comments(*rest),
    }
}

/// The separator of a call-argument fill: a comma, then a space or a break.
pub open spec fn arg_sep() -> DocV {
    DocV::Concat(Box::new(DocV::Text(seq![','])), Box::new(DocV::Line(LineKind::Space)))
}

/// The document of one syntax node.
pub open spec fn map_doc(n: NodeV, opts: FormatOptions) -> DocV
    decreases n,
{
    match n {
        NodeV::Atom(t) => token_docv(t),
        NodeV::StringLit(t) => DocV::Concat(
            Box::new(lead_docs(t.leading, 0)),
            Box::new(
                DocV::Concat(
                    Box::new(DocV::Text(norm_quotes(t.text, opts.quote_style))),
                    Box::new(trail_docs(t.trailing, 0)),
                ),
            ),
        ),
        NodeV::Call { callee, lparen, args, rparen } => DocV::Concat(
            Box::new(map_doc(*callee, opts)),
            Box::new(
                DocV::Group(
                    None,
                    true,
                    Box::new(
                        DocV::Concat(
                            Box::new(token_docv(lparen)),
                            Box::new(
                                DocV::Concat(
                                    Box::new(
                                        DocV::Indent(
                                            Box::new(
                                                DocV::Concat(
                                                    Box::new(DocV::Line(LineKind::Soft)),
                                                    Box::new(
                                                        DocV::Fill(Box::new(fill_of(args, opts))),
                                                    ),
                                                ),
                                            ),
                                        ),
                                    ),
                                    Box::new(
                                        DocV::Concat(
                                            Box::new(DocV::Line(LineKind::Soft)),
                                            Box::new(token_docv(rparen)),
                                        ),
                                    ),
                                ),
                            ),
                        ),
                    ),
                ),
            ),
        ),
        NodeV::Block { lbrace, stmts, rbrace } => match stmts {
            NodeListV::Nil => if has_comment(rbrace.leading, 0) {
                DocV::Concat(
                    Box::new(token_docv(lbrace)),
                    Box::new(
                        DocV::Concat(
                            Box::new(
                                DocV::Indent(
                                    Box::new(
                                        DocV::Concat(
                                            Box::new(DocV::Line(LineKind::Hard)),
                                            Box::new(dangling_docs(rbrace.leading, 0)),
                                        ),
                                    ),
                                ),
                            ),
                            Box::new(
                                DocV::Concat(
                                    Box::new(DocV::Line(LineKind::Hard)),
                                    Box::new(token_docv_no_lead(rbrace)),
                                ),
                            ),
                        ),
                    ),
                )
            } else {
                DocV::Concat(Box::new(token_docv(lbrace)), Box::new(token_docv_no_lead(rbrace)))
            },
            NodeListV::Cons(_, _) => DocV::Concat(
                Box::new(token_docv(lbrace)),
                Box::new(
                    DocV::Concat(
                        Box::new(
                            DocV::Group(
                                None,
                                true,
                                Box::new(
                                    DocV::Indent(
                                        Box::new(
                                            DocV::Concat(
                                                Box::new(DocV::Line(LineKind::Hard)),
                                                Box::new(stmts_docs(stmts, opts)),
                                            ),
                                        ),
                                    ),
                                ),
                            ),
                        ),
                        Box::new(
                            DocV::Concat(
                                Box::new(DocV::Line(LineKind::Hard)),
                                Box::new(token_docv(rbrace)),
                            ),
                        ),
                    ),
                ),
            ),
        },
        NodeV::EmptyModuleBody { semicolon } => token_docv(semicolon),
        NodeV::Raw { text } => DocV::Text(text),
    }
}

/// The fill alternation of a call-argument list.
pub open spec fn fill_of(l: NodeListV, opts: FormatOptions) -> FillV
    decreases l,
{
    match l {
        NodeListV::Nil => FillV::Nil,
        NodeListV::Cons(n, rest) => match *rest {
            NodeListV::Nil => FillV::Last(Box::new(map_doc(*n, opts))),
            NodeListV::Cons(_, _) => FillV::More(
                Box::new(map_doc(*n, opts)),
                Box::new(arg_sep()),
                Box::new(fill_of(*rest, opts)),
            ),
        },
    }
}

/// The hard-line-separated document of a statement list, with one kept blank
/// line wherever the source asked for vertical spacing.
pub open spec fn stmts_docs(l: NodeListV, opts: FormatOptions) -> DocV
    decreases l,
{
    match l {
        NodeListV::Nil => DocV::Nil,
        NodeListV::Cons(n, rest) => match *rest {
            NodeListV::Nil => map_doc(*n, opts),
            NodeListV::Cons(m, _) => DocV::Concat(
                Box::new(map_doc(*n, opts)),
                Box::new(
                    DocV::Concat(
                        Box::new(
                            DocV::Line(
                                if node_blank(*m) {
                                    LineKind::Blank
                                } else {
                                    LineKind::Hard
                                },
                            ),
                        ),
                        Box::new(stmts_docs(*rest, opts)),
                    ),
                ),
            ),
        },
    }
}

/// Builds the comma-separated fill of a call-argument list.
fn build_fill(l: &NodeList, opts: &FormatOptions) -> (f: FillList)
    ensures
        f@ == fill_of(l@, *opts),
    decreases *l,
{
    match l {
        NodeList::Nil => fill_nil(),
        NodeList::Cons(n, rest) => {
            match &**rest {
                NodeList::Nil => {
                    proof {
                        assert((**rest)@ == NodeListV::Nil);
                    }
                    fill_last(to_doc(n, opts))
                },
                NodeList::Cons(_, _) => {
                    proof {
                        assert((**rest)@ is Cons);
                    }
                    let comma = String::from_str(",");
                    proof {
                        reveal_strlit(",");
                        assert(comma@ =~= seq![',']);
                    }
                    let sep = cat(text(comma), line_break(LineKind::Space));
                    fill_more(to_doc(n, opts), sep, build_fill(rest, opts))
                },
            }
        },
    }
}

/// Builds the joined document of a statement list.
fn build_stmts(l: &NodeList, opts: &FormatOptions) -> (d: Doc)
    ensures
        d@ == stmts_docs(l@, *opts),
    decreases *l,
{
    match l {
        NodeList::Nil => nil(),
        NodeList::Cons(n, rest) => {
            match &**rest {
                NodeList::Nil => {
                    proof {
                        assert((**rest)@ == NodeListV::Nil);
                    }
                    to_doc(n, opts)
                },
                NodeList::Cons(m, r2) => {
                    proof {
                        assert((**rest)@ == NodeListV::Cons(
                            Box::new((**m)@),
                            Box::new((**r2)@),
                        ));
                    }
                    let k = if node_leading_blank(m) {
                        LineKind::Blank
                    } else {
                        LineKind::Hard
                    };
                    cat(to_doc(n, opts), cat(line_break(k), build_stmts(rest, opts)))
                },
            }
        },
    }
}

/// Converts one syntax node to its Document IR.
pub fn to_doc(n: &Node, opts: &FormatOptions) -> (d: Doc)
    ensures
        d@ == map_doc(n@, *opts),
    decreases *n,
{
    match n {
        Node::Atom(t) => format_token(t),
        Node::StringLit(t) => {
            let lead = crate::trivia::build_lead_docs(&t.leading, 0);
            let trail = crate::trivia::build_trail_docs(&t.trailing, 0);
            cat(lead, cat(text(normalize_quotes(&t.text, opts.quote_style)), trail))
        },
        Node::Call { callee, lparen, args, rparen } => {
            let inner = cat(
                format_token(lparen),
                cat(
                    indent(cat(line_break(LineKind::Soft), fill(build_fill(args, opts)))),
                    cat(line_break(LineKind::Soft), format_token(rparen)),
                ),
            );
            cat(to_doc(callee, opts), group(inner))
        },
        Node::Block { lbrace, stmts, rbrace } => {
            match stmts {
                NodeList::Nil => {
                    proof {
                        assert(stmts@ == NodeListV::Nil);
                    }
                    if run_has_comment(&rbrace.leading, 0) {
                        let dangling = build_dangling_docs(&rbrace.leading, 0);
                        cat(
                            format_token(lbrace),
                            cat(
                                indent(cat(line_break(LineKind::Hard), dangling)),
                                cat(line_break(LineKind::Hard), format_token_no_lead(rbrace)),
                            ),
                        )
                    } else {
                        cat(format_token(lbrace), format_token_no_lead(rbrace))
                    }
                },
                NodeList::Cons(_, _) => {
                    proof {
                        assert(stmts@ is Cons);
                    }
                    cat(
                        format_token(lbrace),
                        cat(
                            group(
                                indent(
                                    cat(line_break(LineKind::Hard), build_stmts(stmts, opts)),
                                ),
                            ),
                            cat(line_break(LineKind::Hard), format_token(rbrace)),
                        ),
                    )
                },
            }
        },
        Node::EmptyModuleBody { semicolon } => format_token(semicolon),
        Node::Raw { text: t } => text(t.clone()),
    }
}

} // verus!
