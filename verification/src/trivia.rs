//! Trivia and comment attachment.
//!
//! The functions here classify the trivia attached to a token and turn it
//! into Document IR: comments before a token's text become leading comments
//! on their own lines, comments after it on the same source line become
//! deferred trailing content, and comments inside an otherwise empty block
//! are attached as dangling content by the block's rule. Blank lines are the
//! author's vertical-spacing signal: a gap of two or more line breaks is kept
//! as exactly one blank line, a smaller gap is kept as none. Attachment is
//! total — any trivia run maps to a document.

use vstd::prelude::*;

use crate::doc::Doc;
use crate::doc::DocV;
use crate::doc::cat;
use crate::doc::comment;
use crate::doc::line_break;
use crate::doc::line_suffix;
use crate::doc::text;
use crate::doc::LineKind;
use crate::syntax::Token;
use crate::syntax::TokenV;
use crate::syntax::TriviaPiece;
use crate::syntax::TriviaV;
use crate::syntax::trivia_run_view;

verus! {

/// The number of line breaks that open the trivia run.
pub open spec fn first_newlines(ps: Seq<TriviaV>) -> nat {
    if ps.len() == 0 {
        0
    } else {
        match ps[0] {
            TriviaV::Lines(n) => n as nat,
            TriviaV::Comment(_) => 0,
        }
    }
}

/// Whether the trivia run opens with a blank line (two or more breaks):
/// the author's request for vertical spacing before what follows.
pub open spec fn blank_before(ps: Seq<TriviaV>) -> bool {
    first_newlines(ps) >= 2
}

/// Whether the run holds a comment at or after position `i`.
pub open spec fn has_comment(ps: Seq<TriviaV>, i: int) -> bool
    decreases ps.len() - i,
{
    if i < 0 || i >= ps.len() {
        false
    } else {
        match ps[i] {
            TriviaV::Lines(_) => has_comment(ps, i + 1),
            TriviaV::Comment(_) => true,
        }
    }
}

/// The comment texts of the run from position `i` on, in order.
pub open spec fn comments_from(ps: Seq<TriviaV>, i: int) -> Seq<Seq<char>>
    decreases ps.len() - i,
{
    if i < 0 || i >= ps.len() {
        Seq::empty()
    } else {
        match ps[i] {
            TriviaV::Lines(_) => comments_from(ps, i + 1),
            TriviaV::Comment(c) => seq![c] + comments_from(ps, i + 1),
        }
    }
}

/// All comment texts attached to a token, leading edge first.
pub open spec fn token_comments(t: TokenV) -> Seq<Seq<char>> {
    comments_from(t.leading, 0) + comments_from(t.trailing, 0)
}

/// The line that follows a leading or dangling comment, read off the gap at
/// position `j`: a kept blank line when the source had one (or more), a
/// plain break otherwise.
pub open spec fn gap_kind(ps: Seq<TriviaV>, j: int) -> LineKind {
    if j < 0 || j >= ps.len() {
        LineKind::Hard
    } else {
        match ps[j] {
            TriviaV::Lines(n) => if n >= 2 {
                LineKind::Blank
            } else {
                LineKind::Hard
            },
            TriviaV::Comment(_) => LineKind::Hard,
        }
    }
}

/// The leading-comment document of the run from position `i` on: each
/// comment on a line of its own, followed by the line its source gap asks
/// for.
pub open spec fn lead_docs(ps: Seq<TriviaV>, i: int) -> DocV
    decreases ps.len() - i,
{
    if i < 0 || i >= ps.len() {
        DocV::Nil
    } else {
        match ps[i] {
            TriviaV::Lines(_) => lead_docs(ps, i + 1),
            TriviaV::Comment(c) => DocV::Concat(
                Box::new(DocV::Comment(c)),
                Box::new(
                    DocV::Concat(
                        Box::new(DocV::Line(gap_kind(ps, i + 1))),
                        Box::new(lead_docs(ps, i + 1)),
                    ),
                ),
            ),
        }
    }
}

/// The trailing-comment document of the run from position `i` on: each
/// comment deferred to the end of the line, preceded by one space.
pub open spec fn trail_docs(ps: Seq<TriviaV>, i: int) -> DocV
    decreases ps.len() - i,
{
    if i < 0 || i >= ps.len() {
        DocV::Nil
    } else {
        match ps[i] {
            TriviaV::Lines(_) => trail_docs(ps, i + 1),
            TriviaV::Comment(c) => DocV::Concat(
                Box::new(
                    DocV::LineSuffix(
                        Box::new(
                            DocV::Concat(
                                Box::new(DocV::Text(seq![' '])),
                                Box::new(DocV::Comment(c)),
                            ),
                        ),
                    ),
                ),
                Box::new(trail_docs(ps, i + 1)),
            ),
        }
    }
}

/// The dangling-comment document of the run from position `i` on: the
/// comments joined by the lines their source gaps ask for, with no line
/// after the last one.
pub open spec fn dangling_docs(ps: Seq<TriviaV>, i: int) -> DocV
    decreases ps.len() - i,
{
    if i < 0 || i >= ps.len() {
        DocV::Nil
    } else {
        match ps[i] {
            TriviaV::Lines(_) => dangling_docs(ps, i + 1),
            TriviaV::Comment(c) => if has_comment(ps, i + 1) {
                DocV::Concat(
                    Box::new(DocV::Comment(c)),
                    Box::new(
                        DocV::Concat(
                            Box::new(DocV::Line(gap_kind(ps, i + 1))),
                            Box::new(dangling_docs(ps, i + 1)),
                        ),
                    ),
                )
            } else {
                DocV::Comment(c)
            },
        }
    }
}

/// The document of one formatted token: leading comments, the token's own
/// text, deferred trailing comments.
pub open spec fn token_docv(t: TokenV) -> DocV {
    DocV::Concat(
        Box::new(lead_docs(t.leading, 0)),
        Box::new(
            DocV::Concat(Box::new(DocV::Text(t.text)), Box::new(trail_docs(t.trailing, 0))),
        ),
    )
}

/// The document of a formatted token whose leading trivia someone else has
/// already attached (as dangling content).
pub open spec fn token_docv_no_lead(t: TokenV) -> DocV {
    DocV::Concat(Box::new(DocV::Text(t.text)), Box::new(trail_docs(t.trailing, 0)))
}

/// Whether the token's leading trivia opens with a blank line.
pub fn leading_blank(ps: &Vec<TriviaPiece>) -> (r: bool)
    ensures
        r == blank_before(trivia_run_view(ps@)),
{
    if ps.len() == 0 {
        false
    } else {
        proof {
            assert(trivia_run_view(ps@)[0] == ps@[0]@);
        }
        match &ps[0] {
            TriviaPiece::Lines(n) => *n >= 2,
            TriviaPiece::Comment(_) => false,
        }
    }
}

/// Whether the run holds a comment at or after position `i`.
pub fn run_has_comment(ps: &Vec<TriviaPiece>, i: usize) -> (r: bool)
    requires
        i <= ps.len(),
    ensures
        r == has_comment(trivia_run_view(ps@), i as int),
    decreases ps.len() - i,
{
    if i == ps.len() {
        false
    } else {
        proof {
            assert(trivia_run_view(ps@)[i as int] == ps@[i as int]@);
        }
        match &ps[i] {
            TriviaPiece::Lines(_) => run_has_comment(ps, i + 1),
            TriviaPiece::Comment(_) => true,
        }
    }
}

/// Reads the line kind the gap at position `j` asks for.
fn gap_kind_at(ps: &Vec<TriviaPiece>, j: usize) -> (k: LineKind)
    requires
        j <= ps.len(),
    ensures
        k == gap_kind(trivia_run_view(ps@), j as int),
{
    if j == ps.len() {
        LineKind::Hard
    } else {
        proof {
            assert(trivia_run_view(ps@)[j as int] == ps@[j as int]@);
        }
        match &ps[j] {
            TriviaPiece::Lines(n) => if *n >= 2 {
                LineKind::Blank
            } else {
                LineKind::Hard
            },
            TriviaPiece::Comment(_) => LineKind::Hard,
        }
    }
}

/// Builds the leading-comment document of the run from position `i` on.
pub fn build_lead_docs(ps: &Vec<TriviaPiece>, i: usize) -> (d: Doc)
    requires
        i <= ps.len(),
    ensures
        d@ == lead_docs(trivia_run_view(ps@), i as int),
    decreases ps.len() - i,
{
    if i == ps.len() {
        Doc::Nil
    } else {
        proof {
            assert(trivia_run_view(ps@)[i as int] == ps@[i as int]@);
        }
        match &ps[i] {
            TriviaPiece::Lines(_) => build_lead_docs(ps, i + 1),
            TriviaPiece::Comment(c) => {
                let gap = gap_kind_at(ps, i + 1);
                cat(comment(c.clone()), cat(line_break(gap), build_lead_docs(ps, i + 1)))
            },
        }
    }
}

/// Builds the trailing-comment document of the run from position `i` on.
pub fn build_trail_docs(ps: &Vec<TriviaPiece>, i: usize) -> (d: Doc)
    requires
        i <= ps.len(),
    ensures
        d@ == trail_docs(trivia_run_view(ps@), i as int),
    decreases ps.len() - i,
{
    if i == ps.len() {
        Doc::Nil
    } else {
        proof {
            assert(trivia_run_view(ps@)[i as int] == ps@[i as int]@);
        }
        match &ps[i] {
            TriviaPiece::Lines(_) => build_trail_docs(ps, i + 1),
            TriviaPiece::Comment(c) => {
                let space = String::from_str(" ");
                proof {
                    reveal_strlit(" ");
                    assert(space@ =~= seq![' ']);
                }
                cat(line_suffix(cat(text(space), comment(c.clone()))), build_trail_docs(ps, i + 1))
            },
        }
    }
}

/// Builds the dangling-comment document of the run from position `i` on.
pub fn build_dangling_docs(ps: &Vec<TriviaPiece>, i: usize) -> (d: Doc)
    requires
        i <= ps.len(),
    ensures
        d@ == dangling_docs(trivia_run_view(ps@), i as int),
    decreases ps.len() - i,
{
    if i == ps.len() {
        Doc::Nil
    } else {
        proof {
            assert(trivia_run_view(ps@)[i as int] == ps@[i as int]@);
        }
        match &ps[i] {
            TriviaPiece::Lines(_) => build_dangling_docs(ps, i + 1),
            TriviaPiece::Comment(c) => {
                if run_has_comment(ps, i + 1) {
                    let gap = gap_kind_at(ps, i + 1);
                    cat(comment(c.clone()), cat(line_break(gap), build_dangling_docs(ps, i + 1)))
                } else {
                    comment(c.clone())
                }
            },
        }
    }
}

/// Formats one token: applies trivia attachment and yields its text with the
/// attached comment content around it.
pub fn format_token(t: &Token) -> (d: Doc)
    ensures
        d@ == token_docv(t@),
{
    let lead = build_lead_docs(&t.leading, 0);
    let trail = build_trail_docs(&t.trailing, 0);
    cat(lead, cat(text(t.text.clone()), trail))
}

/// Formats one token whose leading trivia was already attached elsewhere.
pub fn format_token_no_lead(t: &Token) -> (d: Doc)
    ensures
        d@ == token_docv_no_lead(t@),
{
    let trail = build_trail_docs(&t.trailing, 0);
    cat(text(t.text.clone()), trail)
}

} // verus!
