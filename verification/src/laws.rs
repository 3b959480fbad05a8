//! The laws of the formatter, proved once and for all documents and trees.
//!
//! Each public proof function here states one guarantee of the library over
//! the specifications that the executable functions are proved against: what
//! a flat rendering emits, that a group judged to fit stays within the width
//! budget, that formatting preserves every comment in order, that blank
//! lines collapse to at most one and that formatting cannot tell vertical
//! gaps apart beyond that, and that a fill separator breaks only when the
//! content after it would not fit.

use vstd::prelude::*;

use crate::doc::DocV;
use crate::doc::FillV;
use crate::doc::LineKind;
use crate::doc::flat_len;
use crate::doc::flat_len_fill;
use crate::doc::flat_text;
use crate::doc::flat_text_fill;
use crate::doc::forced;
use crate::doc::forced_fill;
use crate::doc::min_n;
use crate::doc::pend_text;
use crate::doc::pend_text_fill;
use crate::doc::text_clean;
use crate::doc::text_clean_fill;
use crate::config::FormatOptions;
use crate::doc::doc_comments;
use crate::doc::doc_comments_fill;
use crate::mapping::arg_sep;
use crate::mapping::fill_of;
use crate::mapping::list_comments;
use crate::mapping::map_doc;
use crate::mapping::node_comments;
use crate::mapping::norm_quotes;
use crate::mapping::stmts_docs;
use crate::syntax::NodeListV;
use crate::syntax::NodeV;
use crate::syntax::TriviaV;
use crate::trivia::comments_from;
use crate::trivia::dangling_docs;
use crate::trivia::has_comment;
use crate::trivia::lead_docs;
use crate::trivia::token_comments;
use crate::trivia::token_docv;
use crate::trivia::token_docv_no_lead;
use crate::trivia::trail_docs;
use crate::printer::Mode;
use crate::printer::StateV;
use crate::printer::cap_usize;
use crate::printer::concat_tail;
use crate::printer::spec_doc;
use crate::printer::spec_fill;
use crate::printer::fill_head;
use crate::printer::fill_sep_mode;
use crate::syntax::TokenV;
use crate::trivia::blank_before;
use crate::trivia::gap_kind;

verus! {

/// A flat rendering is exactly the flat text: printing a document without a
/// forced break in flat mode appends its flat text to the output, widens the
/// line by its flat width, defers its line-suffix content, and touches
/// nothing else. In particular a flat rendering emits no line break of its
/// own.
pub proof fn lemma_flat_print(d: DocV, level: usize, tail: usize, st: StateV, opts: FormatOptions)
    requires
        !forced(d),
        st.col <= usize::MAX,
    ensures
        spec_doc(d, Mode::Flat, level, tail, st, opts) == (StateV {
            out: st.out + flat_text(d),
            col: cap_usize(st.col + flat_len(d)),
            pending: st.pending + pend_text(d),
            memo: st.memo,
        }),
    decreases d,
{
    match d {
        DocV::Nil => {
            assert(st.out + flat_text(d) =~= st.out);
            assert(st.pending + pend_text(d) =~= st.pending);
        },
        DocV::Text(s) => {
            assert(st.pending + pend_text(d) =~= st.pending);
        },
        DocV::Comment(s) => {
            assert(st.pending + pend_text(d) =~= st.pending);
        },
        DocV::Line(k) => {
            if k == LineKind::Soft {
                assert(st.out + flat_text(d) =~= st.out);
                assert(st.pending + pend_text(d) =~= st.pending);
            } else if k == LineKind::Space {
                assert(st.pending + pend_text(d) =~= st.pending);
            }
        },
        DocV::Concat(a, b) => {
            let ta = concat_tail(*b, tail, opts);
            lemma_flat_print(*a, level, ta, st, opts);
            let st1 = spec_doc(*a, Mode::Flat, level, ta, st, opts);
            lemma_flat_print(*b, level, tail, st1, opts);
            assert(st.out + flat_text(*a) + flat_text(*b) =~= st.out + (flat_text(*a) + flat_text(
                *b,
            )));
            assert(st.pending + pend_text(*a) + pend_text(*b) =~= st.pending + (pend_text(*a)
                + pend_text(*b)));
        },
        DocV::Group(_, _, a) => {
            lemma_flat_print(*a, level, tail, st, opts);
        },
        DocV::Indent(a) => {
            lemma_flat_print(*a, crate::printer::bump(level), tail, st, opts);
        },
        DocV::Fill(l) => {
            lemma_flat_fill(*l, level, tail, st, opts);
        },
        DocV::LineSuffix(a) => {
            assert(st.out + flat_text(d) =~= st.out);
        },
        DocV::IfBroken(_, _, fl) => {
            lemma_flat_print(*fl, level, tail, st, opts);
        },
    }
}

/// The fill half of [`lemma_flat_print`].
pub proof fn lemma_flat_fill(l: FillV, level: usize, tail: usize, st: StateV, opts: FormatOptions)
    requires
        !forced_fill(l),
        st.col <= usize::MAX,
    ensures
        spec_fill(l, Mode::Flat, level, tail, st, opts) == (StateV {
            out: st.out + flat_text_fill(l),
            col: cap_usize(st.col + flat_len_fill(l)),
            pending: st.pending + pend_text_fill(l),
            memo: st.memo,
        }),
    decreases l,
{
    match l {
        FillV::Nil => {
            assert(st.out + flat_text_fill(l) =~= st.out);
            assert(st.pending + pend_text_fill(l) =~= st.pending);
        },
        FillV::Last(c) => {
            lemma_flat_print(*c, level, tail, st, opts);
        },
        FillV::More(c, s, r) => {
            lemma_flat_print(*c, level, 0, st, opts);
            let st1 = spec_doc(*c, Mode::Flat, level, 0, st, opts);
            lemma_flat_print(*s, level, 0, st1, opts);
            let st2 = spec_doc(*s, Mode::Flat, level, 0, st1, opts);
            lemma_flat_fill(*r, level, tail, st2, opts);
            assert(st.out + flat_text(*c) + flat_text(*s) + flat_text_fill(*r) =~= st.out + (
            flat_text(*c) + flat_text(*s) + flat_text_fill(*r)));
            assert(st.pending + pend_text(*c) + pend_text(*s) + pend_text_fill(*r) =~= st.pending
                + (pend_text(*c) + pend_text(*s) + pend_text_fill(*r)));
        },
    }
}

/// Flat text of a clean document holds no line break: when no literal text
/// piece carries one of its own, neither does the flat rendering.
pub proof fn lemma_flat_text_no_break(d: DocV)
    requires
        text_clean(d),
        !forced(d),
    ensures
        forall|i: int| 0 <= i < flat_text(d).len() ==> flat_text(d)[i] != '\n',
    decreases d,
{
    match d {
        DocV::Nil => {},
        DocV::Text(s) => {
            assert forall|i: int| 0 <= i < flat_text(d).len() implies flat_text(d)[i] != '\n' by {
                assert(flat_text(d) == s);
                if s[i] == '\n' {
                    assert(s.contains('\n'));
                }
            }
        },
        DocV::Comment(s) => {
            assert forall|i: int| 0 <= i < flat_text(d).len() implies flat_text(d)[i] != '\n' by {
                assert(flat_text(d) == s);
                if s[i] == '\n' {
                    assert(s.contains('\n'));
                }
            }
        },
        DocV::Line(k) => {
            assert forall|i: int| 0 <= i < flat_text(d).len() implies flat_text(d)[i] != '\n' by {
                assert(i == 0 && flat_text(d)[0] == ' ');
            }
        },
        DocV::Concat(a, b) => {
            lemma_flat_text_no_break(*a);
            lemma_flat_text_no_break(*b);
            assert forall|i: int| 0 <= i < flat_text(d).len() implies flat_text(d)[i] != '\n' by {
                if i < flat_text(*a).len() {
                    assert(flat_text(d)[i] == flat_text(*a)[i]);
                } else {
                    assert(flat_text(d)[i] == flat_text(*b)[i - flat_text(*a).len()]);
                }
            }
        },
        DocV::Group(_, _, a) => {
            lemma_flat_text_no_break(*a);
            assert forall|i: int| 0 <= i < flat_text(d).len() implies flat_text(d)[i] != '\n' by {
                assert(flat_text(d)[i] == flat_text(*a)[i]);
            }
        },
        DocV::Indent(a) => {
            lemma_flat_text_no_break(*a);
            assert forall|i: int| 0 <= i < flat_text(d).len() implies flat_text(d)[i] != '\n' by {
                assert(flat_text(d)[i] == flat_text(*a)[i]);
            }
        },
        DocV::Fill(l) => {
            lemma_flat_text_no_break_fill(*l);
            assert forall|i: int| 0 <= i < flat_text(d).len() implies flat_text(d)[i] != '\n' by {
                assert(flat_text(d)[i] == flat_text_fill(*l)[i]);
            }
        },
        DocV::LineSuffix(a) => {},
        DocV::IfBroken(_, _, fl) => {
            lemma_flat_text_no_break(*fl);
            assert forall|i: int| 0 <= i < flat_text(d).len() implies flat_text(d)[i] != '\n' by {
                assert(flat_text(d)[i] == flat_text(*fl)[i]);
            }
        },
    }
}

/// The fill half of [`lemma_flat_text_no_break`].
pub proof fn lemma_flat_text_no_break_fill(l: FillV)
    requires
        text_clean_fill(l),
        !forced_fill(l),
    ensures
        forall|i: int| 0 <= i < flat_text_fill(l).len() ==> flat_text_fill(l)[i] != '\n',
    decreases l,
{
    match l {
        FillV::Nil => {},
        FillV::Last(c) => {
            lemma_flat_text_no_break(*c);
            assert forall|i: int| 0 <= i < flat_text_fill(l).len() implies flat_text_fill(l)[i]
                != '\n' by {
                assert(flat_text_fill(l)[i] == flat_text(*c)[i]);
            }
        },
        FillV::More(c, s, r) => {
            lemma_flat_text_no_break(*c);
            lemma_flat_text_no_break(*s);
            lemma_flat_text_no_break_fill(*r);
            assert forall|i: int| 0 <= i < flat_text_fill(l).len() implies flat_text_fill(l)[i]
                != '\n' by {
                let wc = flat_text(*c).len() as int;
                let ws = flat_text(*s).len() as int;
                if i < wc {
                    assert(flat_text_fill(l)[i] == flat_text(*c)[i]);
                } else if i < wc + ws {
                    assert(flat_text_fill(l)[i] == flat_text(*s)[i - wc]);
                } else {
                    assert(flat_text_fill(l)[i] == flat_text_fill(*r)[i - wc - ws]);
                }
            }
        },
    }
}

/// The width bound of the fitting rule: whenever a group together with the
/// flat width that will follow it on its line fits the budget, the printer
/// renders it flat — it appends exactly the flat text, emits no line break
/// of its own (for clean text), and leaves the line within the width budget
/// even after the tail is appended.
pub proof fn lemma_group_fit_stays_within_width(
    d: DocV,
    id: Option<u32>,
    can_break: bool,
    level: usize,
    tail: usize,
    st: StateV,
    opts: FormatOptions,
)
    requires
        !forced(d),
        st.col + flat_len(d) + tail <= opts.width,
    ensures
        ({
            let st2 = spec_doc(
                DocV::Group(id, can_break, Box::new(d)),
                Mode::Broken,
                level,
                tail,
                st,
                opts,
            );
            st2.out == st.out + flat_text(d) && st2.col == st.col + flat_len(d) && st2.col + tail
                <= opts.width && st2.pending == st.pending + pend_text(d) && (text_clean(d)
                ==> forall|i: int|
                st.out.len() <= i < st2.out.len() ==> st2.out[i] != '\n')
        }),
{
    let w = min_n(flat_len(d), crate::printer::cap_of(opts) as nat) as usize;
    assert(w == flat_len(d));
    let st1 = if id is Some {
        StateV { memo: st.memo.push((id->0, false)), ..st }
    } else {
        st
    };
    lemma_flat_print(d, level, tail, st1, opts);
    if text_clean(d) {
        lemma_flat_text_no_break(d);
        let st2 = spec_doc(
            DocV::Group(id, can_break, Box::new(d)),
            Mode::Broken,
            level,
            tail,
            st,
            opts,
        );
        assert(forall|i: int|
            st.out.len() <= i < st2.out.len() ==> st2.out[i] == flat_text(d)[i - st.out.len()]);
    }
}

/// Without a comment in the rest of the run there is nothing to collect.
proof fn lemma_no_comment_empty(ps: Seq<TriviaV>, i: int)
    requires
        !has_comment(ps, i),
    ensures
        comments_from(ps, i) =~= Seq::<Seq<char>>::empty(),
    decreases ps.len() - i,
{
    if i < 0 || i >= ps.len() {
    } else {
        match ps[i] {
            TriviaV::Lines(_) => lemma_no_comment_empty(ps, i + 1),
            TriviaV::Comment(_) => {},
        }
    }
}

/// Leading attachment keeps exactly the comments of the run, in order.
proof fn lemma_comments_lead(ps: Seq<TriviaV>, i: int)
    ensures
        doc_comments(lead_docs(ps, i)) =~= comments_from(ps, i),
    decreases ps.len() - i,
{
    reveal_with_fuel(doc_comments, 5);
    reveal_with_fuel(doc_comments_fill, 5);
    if i < 0 || i >= ps.len() {
    } else {
        match ps[i] {
            TriviaV::Lines(_) => lemma_comments_lead(ps, i + 1),
            TriviaV::Comment(c) => {
                lemma_comments_lead(ps, i + 1);
            },
        }
    }
}

/// Trailing attachment keeps exactly the comments of the run, in order.
proof fn lemma_comments_trail(ps: Seq<TriviaV>, i: int)
    ensures
        doc_comments(trail_docs(ps, i)) =~= comments_from(ps, i),
    decreases ps.len() - i,
{
    reveal_with_fuel(doc_comments, 5);
    reveal_with_fuel(doc_comments_fill, 5);
    if i < 0 || i >= ps.len() {
    } else {
        match ps[i] {
            TriviaV::Lines(_) => lemma_comments_trail(ps, i + 1),
            TriviaV::Comment(c) => {
                lemma_comments_trail(ps, i + 1);
            },
        }
    }
}

/// Dangling attachment keeps exactly the comments of the run, in order.
proof fn lemma_comments_dangling(ps: Seq<TriviaV>, i: int)
    ensures
        doc_comments(dangling_docs(ps, i)) =~= comments_from(ps, i),
    decreases ps.len() - i,
{
    reveal_with_fuel(doc_comments, 5);
    reveal_with_fuel(doc_comments_fill, 5);
    if i < 0 || i >= ps.len() {
    } else {
        match ps[i] {
            TriviaV::Lines(_) => lemma_comments_dangling(ps, i + 1),
            TriviaV::Comment(c) => {
                if has_comment(ps, i + 1) {
                    lemma_comments_dangling(ps, i + 1);
                } else {
                    lemma_no_comment_empty(ps, i + 1);
                }
            },
        }
    }
}

/// A formatted token carries exactly its attached comments, leading first.
proof fn lemma_comments_token(t: crate::syntax::TokenV)
    ensures
        doc_comments(token_docv(t)) =~= token_comments(t),
        doc_comments(token_docv_no_lead(t)) =~= comments_from(t.trailing, 0),
{
    reveal_with_fuel(doc_comments, 5);
    reveal_with_fuel(doc_comments_fill, 5);
    lemma_comments_lead(t.leading, 0);
    lemma_comments_trail(t.trailing, 0);
}

/// Comment preservation: the document of a tree carries exactly the
/// comments of the tree's trivia, each once, in source order. The printer
/// renders every comment fragment verbatim, so what the mapping attaches is
/// what the output carries.
pub proof fn lemma_comment_preservation(n: NodeV, opts: FormatOptions)
    ensures
        doc_comments(map_doc(n, opts)) =~= node_comments(n),
    decreases n,
{
    match n {
        NodeV::Atom(t) => lemma_comments_token(t),
        NodeV::StringLit(t) => {
            lemma_comments_lead(t.leading, 0);
            lemma_comments_trail(t.trailing, 0);
            let inner = DocV::Concat(
                Box::new(DocV::Text(norm_quotes(t.text, opts.quote_style))),
                Box::new(trail_docs(t.trailing, 0)),
            );
            assert(doc_comments(DocV::Text(norm_quotes(t.text, opts.quote_style))) =~= Seq::<
                Seq<char>,
            >::empty());
            assert(doc_comments(inner) =~= doc_comments(trail_docs(t.trailing, 0)));
        },
        NodeV::Call { callee, lparen, args, rparen } => {
            lemma_comment_preservation(*callee, opts);
            lemma_comments_token(lparen);
            lemma_comments_fill(args, opts);
            lemma_comments_token(rparen);
            let fill_d = DocV::Fill(Box::new(fill_of(args, opts)));
            let soft_fill = DocV::Concat(Box::new(DocV::Line(LineKind::Soft)), Box::new(fill_d));
            let ind = DocV::Indent(Box::new(soft_fill));
            let soft_r = DocV::Concat(
                Box::new(DocV::Line(LineKind::Soft)),
                Box::new(token_docv(rparen)),
            );
            let tail2 = DocV::Concat(Box::new(ind), Box::new(soft_r));
            let inner = DocV::Concat(Box::new(token_docv(lparen)), Box::new(tail2));
            let grp = DocV::Group(None, true, Box::new(inner));
            assert(doc_comments(DocV::Line(LineKind::Soft)) =~= Seq::<Seq<char>>::empty());
            assert(doc_comments(fill_d) =~= doc_comments_fill(fill_of(args, opts)));
            assert(doc_comments(soft_fill) =~= doc_comments(fill_d));
            assert(doc_comments(ind) =~= doc_comments(soft_fill));
            assert(doc_comments(soft_r) =~= doc_comments(token_docv(rparen)));
            assert(doc_comments(tail2) =~= doc_comments(ind) + doc_comments(soft_r));
            assert(doc_comments(inner) =~= doc_comments(token_docv(lparen)) + doc_comments(tail2));
            assert(doc_comments(grp) =~= doc_comments(inner));
            assert(doc_comments(map_doc(n, opts)) =~= doc_comments(map_doc(*callee, opts))
                + doc_comments(grp));
            assert(node_comments(n) =~= node_comments(*callee) + token_comments(lparen)
                + list_comments(args) + token_comments(rparen));
            assert(doc_comments(map_doc(n, opts)) =~= node_comments(n));
        },
        NodeV::Block { lbrace, stmts, rbrace } => {
            lemma_comments_token(lbrace);
            lemma_comments_token(rbrace);
            match stmts {
                NodeListV::Nil => {
                    assert(list_comments(NodeListV::Nil) =~= Seq::<Seq<char>>::empty());
                    if has_comment(rbrace.leading, 0) {
                        lemma_comments_dangling(rbrace.leading, 0);
                        let dang = DocV::Concat(
                            Box::new(DocV::Line(LineKind::Hard)),
                            Box::new(dangling_docs(rbrace.leading, 0)),
                        );
                        let ind = DocV::Indent(Box::new(dang));
                        let closing = DocV::Concat(
                            Box::new(DocV::Line(LineKind::Hard)),
                            Box::new(token_docv_no_lead(rbrace)),
                        );
                        let tail2 = DocV::Concat(Box::new(ind), Box::new(closing));
                        assert(doc_comments(DocV::Line(LineKind::Hard)) =~= Seq::<
                            Seq<char>,
                        >::empty());
                        assert(doc_comments(dang) =~= doc_comments(
                            dangling_docs(rbrace.leading, 0),
                        ));
                        assert(doc_comments(ind) =~= doc_comments(dang));
                        assert(doc_comments(closing) =~= doc_comments(token_docv_no_lead(rbrace)));
                        assert(doc_comments(tail2) =~= doc_comments(ind) + doc_comments(closing));
                        assert(doc_comments(map_doc(n, opts)) =~= doc_comments(token_docv(lbrace))
                            + doc_comments(tail2));
                        assert(doc_comments(map_doc(n, opts)) =~= node_comments(n));
                    } else {
                        lemma_no_comment_empty(rbrace.leading, 0);
                        assert(doc_comments(map_doc(n, opts)) =~= doc_comments(token_docv(lbrace))
                            + doc_comments(token_docv_no_lead(rbrace)));
                        assert(doc_comments(map_doc(n, opts)) =~= node_comments(n));
                    }
                },
                NodeListV::Cons(_, _) => {
                    lemma_comments_stmts(stmts, opts);
                    let body = DocV::Concat(
                        Box::new(DocV::Line(LineKind::Hard)),
                        Box::new(stmts_docs(stmts, opts)),
                    );
                    let ind = DocV::Group(None, true, Box::new(DocV::Indent(Box::new(body))));
                    let closing = DocV::Concat(
                        Box::new(DocV::Line(LineKind::Hard)),
                        Box::new(token_docv(rbrace)),
                    );
                    let tail2 = DocV::Concat(Box::new(ind), Box::new(closing));
                    assert(doc_comments(DocV::Line(LineKind::Hard)) =~= Seq::<
                        Seq<char>,
                    >::empty());
                    assert(doc_comments(body) =~= doc_comments(stmts_docs(stmts, opts)));
                    assert(doc_comments(DocV::Indent(Box::new(body))) =~= doc_comments(body));
                    assert(doc_comments(ind) =~= doc_comments(body));
                    assert(doc_comments(closing) =~= doc_comments(token_docv(rbrace)));
                    assert(doc_comments(tail2) =~= doc_comments(ind) + doc_comments(closing));
                    assert(doc_comments(map_doc(n, opts)) =~= doc_comments(token_docv(lbrace))
                        + doc_comments(tail2));
                    assert(doc_comments(map_doc(n, opts)) =~= node_comments(n));
                },
            }
        },
        NodeV::EmptyModuleBody { semicolon } => lemma_comments_token(semicolon),
        NodeV::Raw { .. } => {},
    }
}

/// The comments of a call-argument fill are those of its nodes, in order.
proof fn lemma_comments_fill(l: NodeListV, opts: FormatOptions)
    ensures
        doc_comments_fill(fill_of(l, opts)) =~= list_comments(l),
    decreases l,
{
    match l {
        NodeListV::Nil => {},
        NodeListV::Cons(n, rest) => {
            lemma_comment_preservation(*n, opts);
            match *rest {
                NodeListV::Nil => {
                    assert(list_comments(*rest) =~= Seq::<Seq<char>>::empty());
                },
                NodeListV::Cons(_, _) => {
                    lemma_comments_fill(*rest, opts);
                    assert(doc_comments(DocV::Text(seq![','])) =~= Seq::<Seq<char>>::empty());
                    assert(doc_comments(DocV::Line(LineKind::Space)) =~= Seq::<
                        Seq<char>,
                    >::empty());
                    assert(doc_comments(arg_sep()) =~= Seq::<Seq<char>>::empty());
                },
            }
        },
    }
}

/// The comments of a statement-list document are those of its nodes.
proof fn lemma_comments_stmts(l: NodeListV, opts: FormatOptions)
    ensures
        doc_comments(stmts_docs(l, opts)) =~= list_comments(l),
    decreases l,
{
    reveal_with_fuel(doc_comments, 5);
    reveal_with_fuel(doc_comments_fill, 5);
    match l {
        NodeListV::Nil => {},
        NodeListV::Cons(n, rest) => {
            lemma_comment_preservation(*n, opts);
            match *rest {
                NodeListV::Nil => {
                    assert(list_comments(*rest) =~= Seq::<Seq<char>>::empty());
                },
                NodeListV::Cons(m, _) => {
                    lemma_comments_stmts(*rest, opts);
                    let k = if crate::mapping::node_blank(*m) {
                        LineKind::Blank
                    } else {
                        LineKind::Hard
                    };
                    let joined = DocV::Concat(
                        Box::new(DocV::Line(k)),
                        Box::new(stmts_docs(*rest, opts)),
                    );
                    assert(doc_comments(DocV::Line(k)) =~= Seq::<Seq<char>>::empty());
                    assert(doc_comments(joined) =~= doc_comments(stmts_docs(*rest, opts)));
                    assert(doc_comments(stmts_docs(l, opts)) =~= doc_comments(map_doc(*n, opts))
                        + doc_comments(joined));
                },
            }
        },
    }
}

/// Fill independence: a separator of a fill breaks exactly when the content
/// after it would not fit flat on the current line behind the flat
/// separator. In particular the printer never moves an item to the next
/// line when it would fit on the current one, and when the item fits, the
/// separator and the item land on the line within the width budget.
pub proof fn lemma_fill_separator_breaks_only_when_needed(
    s: DocV,
    r: FillV,
    level: usize,
    st1: StateV,
    opts: FormatOptions,
)
    requires
        st1.col <= usize::MAX,
    ensures
        ({
            let fits_next = !forced(s) && !fill_head(r).1 && st1.col + flat_len(s) + fill_head(
                r,
            ).0 <= opts.width;
            let ms = fill_sep_mode(s, r, Mode::Broken, st1, opts);
            &&& (ms == Mode::Flat <==> fits_next)
            &&& (fits_next ==> {
                let st2 = spec_doc(s, Mode::Flat, level, 0, st1, opts);
                st2.out == st1.out + flat_text(s) && st2.col == st1.col + flat_len(s) && st2.col
                    + fill_head(r).0 <= opts.width
            })
        }),
{
    let fits_next = !forced(s) && !fill_head(r).1 && st1.col + flat_len(s) + fill_head(r).0
        <= opts.width;
    if fits_next {
        lemma_flat_print(s, level, 0, st1, opts);
    }
}

/// Clamps one trivia piece: a run of three or more line breaks counts like a
/// run of two — one blank line.
pub open spec fn clamp_piece(p: TriviaV) -> TriviaV {
    match p {
        TriviaV::Lines(n) => TriviaV::Lines(
            if n >= 2 {
                2
            } else {
                n
            },
        ),
        TriviaV::Comment(c) => TriviaV::Comment(c),
    }
}

/// Clamps a whole trivia run.
pub open spec fn clamp_run(ps: Seq<TriviaV>) -> Seq<TriviaV> {
    ps.map_values(|p: TriviaV| clamp_piece(p))
}

/// Clamps the trivia of a token.
pub open spec fn clamp_token(t: TokenV) -> TokenV {
    TokenV { text: t.text, leading: clamp_run(t.leading), trailing: clamp_run(t.trailing) }
}

/// Clamps every trivia run of a tree.
pub open spec fn clamp_node(n: NodeV) -> NodeV
    decreases n,
{
    match n {
        NodeV::Atom(t) => NodeV::Atom(clamp_token(t)),
        NodeV::StringLit(t) => NodeV::StringLit(clamp_token(t)),
        NodeV::Call { callee, lparen, args, rparen } => NodeV::Call {
            callee: Box::new(clamp_node(*callee)),
            lparen: clamp_token(lparen),
            args: clamp_list(args),
            rparen: clamp_token(rparen),
        },
        NodeV::Block { lbrace, stmts, rbrace } => NodeV::Block {
            lbrace: clamp_token(lbrace),
            stmts: clamp_list(stmts),
            rbrace: clamp_token(rbrace),
        },
        NodeV::EmptyModuleBody { semicolon } => NodeV::EmptyModuleBody {
            semicolon: clamp_token(semicolon),
        },
        NodeV::Raw { text } => NodeV::Raw { text },
    }
}

/// Clamps every trivia run of a node list.
pub open spec fn clamp_list(l: NodeListV) -> NodeListV
    decreases l,
{
    match l {
        NodeListV::Nil => NodeListV::Nil,
        NodeListV::Cons(n, rest) => NodeListV::Cons(
            Box::new(clamp_node(*n)),
            Box::new(clamp_list(*rest)),
        ),
    }
}

proof fn lemma_clamp_blank(ps: Seq<TriviaV>)
    ensures
        blank_before(clamp_run(ps)) == blank_before(ps),
{
    if ps.len() > 0 {
        assert(clamp_run(ps)[0] == clamp_piece(ps[0]));
    }
}

proof fn lemma_clamp_gap(ps: Seq<TriviaV>, j: int)
    ensures
        gap_kind(clamp_run(ps), j) == gap_kind(ps, j),
{
    if 0 <= j < ps.len() {
        assert(clamp_run(ps)[j] == clamp_piece(ps[j]));
    }
}

proof fn lemma_clamp_has(ps: Seq<TriviaV>, i: int)
    ensures
        has_comment(clamp_run(ps), i) == has_comment(ps, i),
    decreases ps.len() - i,
{
    if 0 <= i < ps.len() {
        assert(clamp_run(ps)[i] == clamp_piece(ps[i]));
        lemma_clamp_has(ps, i + 1);
    }
}

proof fn lemma_clamp_lead(ps: Seq<TriviaV>, i: int)
    ensures
        lead_docs(clamp_run(ps), i) == lead_docs(ps, i),
    decreases ps.len() - i,
{
    if 0 <= i < ps.len() {
        assert(clamp_run(ps)[i] == clamp_piece(ps[i]));
        lemma_clamp_gap(ps, i + 1);
        lemma_clamp_lead(ps, i + 1);
    }
}

proof fn lemma_clamp_trail(ps: Seq<TriviaV>, i: int)
    ensures
        trail_docs(clamp_run(ps), i) == trail_docs(ps, i),
    decreases ps.len() - i,
{
    if 0 <= i < ps.len() {
        assert(clamp_run(ps)[i] == clamp_piece(ps[i]));
        lemma_clamp_trail(ps, i + 1);
    }
}

proof fn lemma_clamp_dangling(ps: Seq<TriviaV>, i: int)
    ensures
        dangling_docs(clamp_run(ps), i) == dangling_docs(ps, i),
    decreases ps.len() - i,
{
    if 0 <= i < ps.len() {
        assert(clamp_run(ps)[i] == clamp_piece(ps[i]));
        lemma_clamp_gap(ps, i + 1);
        lemma_clamp_has(ps, i + 1);
        lemma_clamp_dangling(ps, i + 1);
    }
}

proof fn lemma_clamp_token(t: TokenV)
    ensures
        token_docv(clamp_token(t)) == token_docv(t),
        token_docv_no_lead(clamp_token(t)) == token_docv_no_lead(t),
        token_comments(clamp_token(t)) == token_comments(t),
{
    lemma_clamp_lead(t.leading, 0);
    lemma_clamp_trail(t.trailing, 0);
    lemma_clamp_comments(t.leading, 0);
    lemma_clamp_comments(t.trailing, 0);
}

proof fn lemma_clamp_comments(ps: Seq<TriviaV>, i: int)
    ensures
        comments_from(clamp_run(ps), i) == comments_from(ps, i),
    decreases ps.len() - i,
{
    if 0 <= i < ps.len() {
        assert(clamp_run(ps)[i] == clamp_piece(ps[i]));
        lemma_clamp_comments(ps, i + 1);
    }
}

proof fn lemma_clamp_node_blank(n: NodeV)
    ensures
        crate::mapping::node_blank(clamp_node(n)) == crate::mapping::node_blank(n),
    decreases n,
{
    match n {
        NodeV::Atom(t) => lemma_clamp_blank(t.leading),
        NodeV::StringLit(t) => lemma_clamp_blank(t.leading),
        NodeV::Call { callee, .. } => lemma_clamp_node_blank(*callee),
        NodeV::Block { lbrace, .. } => lemma_clamp_blank(lbrace.leading),
        NodeV::EmptyModuleBody { semicolon } => lemma_clamp_blank(semicolon.leading),
        NodeV::Raw { .. } => {},
    }
}

/// Blank-line collapse, and the whitespace half of idempotence: formatting
/// cannot tell vertical gaps apart beyond one kept blank line. A tree whose
/// line-break runs are clamped to at most two maps to the very same
/// document, so any number of consecutive blank lines in the source renders
/// exactly like one, and a rerun of the formatter on text that already obeys
/// that rule sees nothing to change in its vertical spacing.
pub proof fn lemma_vertical_gap_collapse(n: NodeV, opts: FormatOptions)
    ensures
        map_doc(clamp_node(n), opts) == map_doc(n, opts),
    decreases n,
{
    match n {
        NodeV::Atom(t) => lemma_clamp_token(t),
        NodeV::StringLit(t) => {
            lemma_clamp_lead(t.leading, 0);
            lemma_clamp_trail(t.trailing, 0);
        },
        NodeV::Call { callee, lparen, args, rparen } => {
            lemma_vertical_gap_collapse(*callee, opts);
            lemma_clamp_token(lparen);
            lemma_clamp_fill(args, opts);
            lemma_clamp_token(rparen);
        },
        NodeV::Block { lbrace, stmts, rbrace } => {
            lemma_clamp_token(lbrace);
            lemma_clamp_token(rbrace);
            match stmts {
                NodeListV::Nil => {
                    assert(clamp_list(stmts) == NodeListV::Nil);
                    lemma_clamp_has(rbrace.leading, 0);
                    lemma_clamp_dangling(rbrace.leading, 0);
                },
                NodeListV::Cons(_, _) => {
                    assert(clamp_list(stmts) is Cons);
                    lemma_clamp_stmts(stmts, opts);
                },
            }
        },
        NodeV::EmptyModuleBody { semicolon } => lemma_clamp_token(semicolon),
        NodeV::Raw { .. } => {},
    }
}

/// The format-level corollary of [`lemma_vertical_gap_collapse`]: the
/// formatted text of a tree equals that of the tree with every line-break
/// run clamped to at most two.
pub proof fn lemma_formatted_insensitive_to_vertical_gaps(n: NodeV, opts: FormatOptions)
    ensures
        crate::format::formatted(clamp_node(n), opts) == crate::format::formatted(n, opts),
{
    lemma_vertical_gap_collapse(n, opts);
}

/// The fill half of [`lemma_vertical_gap_collapse`].
proof fn lemma_clamp_fill(l: NodeListV, opts: FormatOptions)
    ensures
        fill_of(clamp_list(l), opts) == fill_of(l, opts),
    decreases l,
{
    match l {
        NodeListV::Nil => {},
        NodeListV::Cons(n, rest) => {
            lemma_vertical_gap_collapse(*n, opts);
            match *rest {
                NodeListV::Nil => {
                    assert(clamp_list(*rest) == NodeListV::Nil);
                },
                NodeListV::Cons(_, _) => {
                    assert(clamp_list(*rest) is Cons);
                    lemma_clamp_fill(*rest, opts);
                },
            }
        },
    }
}

/// The statement-list half of [`lemma_vertical_gap_collapse`].
proof fn lemma_clamp_stmts(l: NodeListV, opts: FormatOptions)
    ensures
        stmts_docs(clamp_list(l), opts) == stmts_docs(l, opts),
    decreases l,
{
    match l {
        NodeListV::Nil => {},
        NodeListV::Cons(n, rest) => {
            lemma_vertical_gap_collapse(*n, opts);
            match *rest {
                NodeListV::Nil => {
                    assert(clamp_list(*rest) == NodeListV::Nil);
                },
                NodeListV::Cons(m, r2) => {
                    assert(clamp_list(*rest) == NodeListV::Cons(
                        Box::new(clamp_node(*m)),
                        Box::new(clamp_list(*r2)),
                    ));
                    lemma_clamp_node_blank(*m);
                    lemma_clamp_stmts(*rest, opts);
                },
            }
        },
    }
}

/// The mapping hands out no group identifiers, so every document it builds
/// satisfies the uniqueness invariant on them: each identifier occurs on at
/// most one group.
pub proof fn lemma_map_doc_id_free(n: NodeV, opts: FormatOptions)
    ensures
        crate::doc::id_free(map_doc(n, opts)),
    decreases n,
{
    reveal_with_fuel(crate::doc::id_free, 10);
    match n {
        NodeV::Atom(t) => lemma_token_id_free(t),
        NodeV::StringLit(t) => {
            lemma_trivia_id_free(t.leading, 0);
            lemma_trail_id_free(t.trailing, 0);
        },
        NodeV::Call { callee, lparen, args, rparen } => {
            lemma_map_doc_id_free(*callee, opts);
            lemma_token_id_free(lparen);
            lemma_fill_id_free(args, opts);
            lemma_token_id_free(rparen);
        },
        NodeV::Block { lbrace, stmts, rbrace } => {
            lemma_token_id_free(lbrace);
            lemma_token_id_free(rbrace);
            match stmts {
                NodeListV::Nil => {
                    lemma_dangling_id_free(rbrace.leading, 0);
                },
                NodeListV::Cons(_, _) => {
                    lemma_stmts_id_free(stmts, opts);
                },
            }
        },
        NodeV::EmptyModuleBody { semicolon } => lemma_token_id_free(semicolon),
        NodeV::Raw { .. } => {},
    }
}

proof fn lemma_trivia_id_free(ps: Seq<TriviaV>, i: int)
    ensures
        crate::doc::id_free(lead_docs(ps, i)),
    decreases ps.len() - i,
{
    reveal_with_fuel(crate::doc::id_free, 5);
    if 0 <= i < ps.len() {
        lemma_trivia_id_free(ps, i + 1);
    }
}

proof fn lemma_trail_id_free(ps: Seq<TriviaV>, i: int)
    ensures
        crate::doc::id_free(trail_docs(ps, i)),
    decreases ps.len() - i,
{
    reveal_with_fuel(crate::doc::id_free, 5);
    if 0 <= i < ps.len() {
        lemma_trail_id_free(ps, i + 1);
    }
}

proof fn lemma_dangling_id_free(ps: Seq<TriviaV>, i: int)
    ensures
        crate::doc::id_free(dangling_docs(ps, i)),
    decreases ps.len() - i,
{
    reveal_with_fuel(crate::doc::id_free, 5);
    if 0 <= i < ps.len() {
        lemma_dangling_id_free(ps, i + 1);
    }
}

proof fn lemma_token_id_free(t: TokenV)
    ensures
        crate::doc::id_free(token_docv(t)),
        crate::doc::id_free(token_docv_no_lead(t)),
{
    reveal_with_fuel(crate::doc::id_free, 5);
    lemma_trivia_id_free(t.leading, 0);
    lemma_trail_id_free(t.trailing, 0);
}

proof fn lemma_fill_id_free(l: NodeListV, opts: FormatOptions)
    ensures
        crate::doc::id_free_fill(fill_of(l, opts)),
    decreases l,
{
    reveal_with_fuel(crate::doc::id_free, 5);
    reveal_with_fuel(crate::doc::id_free_fill, 5);
    match l {
        NodeListV::Nil => {},
        NodeListV::Cons(n, rest) => {
            lemma_map_doc_id_free(*n, opts);
            match *rest {
                NodeListV::Nil => {},
                NodeListV::Cons(_, _) => {
                    lemma_fill_id_free(*rest, opts);
                },
            }
        },
    }
}

proof fn lemma_stmts_id_free(l: NodeListV, opts: FormatOptions)
    ensures
        crate::doc::id_free(stmts_docs(l, opts)),
    decreases l,
{
    reveal_with_fuel(crate::doc::id_free, 5);
    match l {
        NodeListV::Nil => {},
        NodeListV::Cons(n, rest) => {
            lemma_map_doc_id_free(*n, opts);
            match *rest {
                NodeListV::Nil => {},
                NodeListV::Cons(_, _) => {
                    lemma_stmts_id_free(*rest, opts);
                },
            }
        },
    }
}

} // verus!
