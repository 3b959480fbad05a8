//! The Document IR: a closed tree of layout primitives.
//!
//! Every formatting rule composes these primitives; the printer consumes them.
//! A document is fully self-contained layout data: it never refers back to the
//! syntax tree. Construction is total — no operation on a document can fail.
//!
//! Each executable constructor is shadowed by a specification mirror
//! ([`DocV`], [`FillV`]) whose text is a `Seq<char>`, so that contracts and
//! laws can be stated equationally over documents.

use vstd::prelude::*;

verus! {

/// Kinds of line break a [`Doc::Line`] node can carry.
///
/// `Soft` and `Space` are the two optional breaks (nothing respectively a
/// single space when their group renders flat); `Hard` always breaks; `Blank`
/// always breaks and keeps one blank line above the new one.
#[derive(Clone, Copy, Debug, PartialEq, Eq, Structural)]
pub enum LineKind {
    Soft,
    Space,
    Hard,
    Blank,
}

/// One node of the Document IR.
#[derive(Debug)]
pub enum Doc {
    /// The empty fragment.
    Nil,
    /// A literal piece of text, printed verbatim.
    Text(String),
    /// A comment's text. It is laid out exactly like [`Doc::Text`]; it is a
    /// separate case only so that comment preservation can be stated.
    Comment(String),
    /// An optional or forced line break.
    Line(LineKind),
    /// Two fragments, one after the other.
    Concat(Box<Doc>, Box<Doc>),
    /// A group: its optional breaks are resolved together, all flat or all
    /// broken. The first field is an optional identifier under which the
    /// printer remembers the decision; the second is the "can break" flag —
    /// when false the group stays flat however wide it is, unless a forced
    /// break inside it overrides that.
    Group(Option<u32>, bool, Box<Doc>),
    /// One more level of indentation around the child.
    Indent(Box<Doc>),
    /// A fill list: contents alternating with separators; each separator
    /// breaks independently of the others.
    Fill(Box<FillList>),
    /// Deferred content (typically a trailing comment), buffered and flushed
    /// just before the next emitted line break.
    LineSuffix(Box<Doc>),
    /// Conditional content: the first fragment when the decision is broken,
    /// the second when it is flat. The optional identifier names a group
    /// whose remembered decision is consulted; without one, the decision is
    /// the mode of the enclosing group.
    IfBroken(Option<u32>, Box<Doc>, Box<Doc>),
}

/// The content/separator alternation of a [`Doc::Fill`]. By construction it
/// starts with content and holds a separator between any two contents; an
/// alternation that ends in a separator carries it in a final `More` whose
/// rest is `Nil`.
#[derive(Debug)]
pub enum FillList {
    Nil,
    Last(Box<Doc>),
    More(Box<Doc>, Box<Doc>, Box<FillList>),
}

/// Specification mirror of [`Doc`]: the same shape with mathematical text.
pub enum DocV {
    Nil,
    Text(Seq<char>),
    Comment(Seq<char>),
    Line(LineKind),
    Concat(Box<DocV>, Box<DocV>),
    Group(Option<u32>, bool, Box<DocV>),
    Indent(Box<DocV>),
    Fill(Box<FillV>),
    LineSuffix(Box<DocV>),
    IfBroken(Option<u32>, Box<DocV>, Box<DocV>),
}

/// Specification mirror of [`FillList`].
pub enum FillV {
    Nil,
    Last(Box<DocV>),
    More(Box<DocV>, Box<DocV>, Box<FillV>),
}

pub open spec fn doc_view(d: Doc) -> DocV
    decreases d,
{
    match d {
        Doc::Nil => DocV::Nil,
        Doc::Text(s) => DocV::Text(s@),
        Doc::Comment(s) => DocV::Comment(s@),
        Doc::Line(k) => DocV::Line(k),
        Doc::Concat(a, b) => DocV::Concat(Box::new(doc_view(*a)), Box::new(doc_view(*b))),
        Doc::Group(id, cb, a) => DocV::Group(id, cb, Box::new(doc_view(*a))),
        Doc::Indent(a) => DocV::Indent(Box::new(doc_view(*a))),
        Doc::Fill(l) => DocV::Fill(Box::new(fill_view(*l))),
        Doc::LineSuffix(a) => DocV::LineSuffix(Box::new(doc_view(*a))),
        Doc::IfBroken(id, a, b) => DocV::IfBroken(id, Box::new(doc_view(*a)), Box::new(doc_view(*b))),
    }
}

pub open spec fn fill_view(l: FillList) -> FillV
    decreases l,
{
    match l {
        FillList::Nil => FillV::Nil,
        FillList::Last(c) => FillV::Last(Box::new(doc_view(*c))),
        FillList::More(c, s, r) => FillV::More(
            Box::new(doc_view(*c)),
            Box::new(doc_view(*s)),
            Box::new(fill_view(*r)),
        ),
    }
}

impl View for Doc {
    type V = DocV;

    open spec fn view(&self) -> DocV {
        doc_view(*self)
    }
}

impl View for FillList {
    type V = FillV;

    open spec fn view(&self) -> FillV {
        fill_view(*self)
    }
}

/// Whether the document contains a forced line break — a `Hard` or `Blank`
/// line that is printed whatever the width. Deferred [`DocV::LineSuffix`]
/// content never forces a break, and a conditional is measured through its
/// flat branch, the one a flat rendering would choose.
pub open spec fn forced(d: DocV) -> bool
    decreases d,
{
    match d {
        DocV::Nil => false,
        DocV::Text(_) => false,
        DocV::Comment(_) => false,
        DocV::Line(k) => k == LineKind::Hard || k == LineKind::Blank,
        DocV::Concat(a, b) => forced(*a) || forced(*b),
        DocV::Group(_, _, a) => forced(*a),
        DocV::Indent(a) => forced(*a),
        DocV::Fill(l) => forced_fill(*l),
        DocV::LineSuffix(_) => false,
        DocV::IfBroken(_, _, fl) => forced(*fl),
    }
}

pub open spec fn forced_fill(l: FillV) -> bool
    decreases l,
{
    match l {
        FillV::Nil => false,
        FillV::Last(c) => forced(*c),
        FillV::More(c, s, r) => forced(*c) || forced(*s) || forced_fill(*r),
    }
}

/// The width, in characters, of the document rendered entirely flat, counted
/// up to its first forced line break (or in full when it has none). This is
/// the measure of the group fitting rule.
pub open spec fn flat_len(d: DocV) -> nat
    decreases d,
{
    match d {
        DocV::Nil => 0,
        DocV::Text(s) => s.len(),
        DocV::Comment(s) => s.len(),
        DocV::Line(k) => if k == LineKind::Space {
            1
        } else {
            0
        },
        DocV::Concat(a, b) => if forced(*a) {
            flat_len(*a)
        } else {
            flat_len(*a) + flat_len(*b)
        },
        DocV::Group(_, _, a) => flat_len(*a),
        DocV::Indent(a) => flat_len(*a),
        DocV::Fill(l) => flat_len_fill(*l),
        DocV::LineSuffix(_) => 0,
        DocV::IfBroken(_, _, fl) => flat_len(*fl),
    }
}

pub open spec fn flat_len_fill(l: FillV) -> nat
    decreases l,
{
    match l {
        FillV::Nil => 0,
        FillV::Last(c) => flat_len(*c),
        FillV::More(c, s, r) => if forced(*c) {
            flat_len(*c)
        } else if forced(*s) {
            flat_len(*c) + flat_len(*s)
        } else {
            flat_len(*c) + flat_len(*s) + flat_len_fill(*r)
        },
    }
}

/// The text of the document rendered flat: optional breaks render as nothing
/// or one space, deferred content renders as nothing. Meaningful for
/// documents without a forced break; a forced break renders as itself so that
/// the function stays total.
pub open spec fn flat_text(d: DocV) -> Seq<char>
    decreases d,
{
    match d {
        DocV::Nil => Seq::empty(),
        DocV::Text(s) => s,
        DocV::Comment(s) => s,
        DocV::Line(k) => if k == LineKind::Space {
            seq![' ']
        } else if k == LineKind::Soft {
            Seq::empty()
        } else {
            seq!['\n']
        },
        DocV::Concat(a, b) => flat_text(*a) + flat_text(*b),
        DocV::Group(_, _, a) => flat_text(*a),
        DocV::Indent(a) => flat_text(*a),
        DocV::Fill(l) => flat_text_fill(*l),
        DocV::LineSuffix(_) => Seq::empty(),
        DocV::IfBroken(_, _, fl) => flat_text(*fl),
    }
}

pub open spec fn flat_text_fill(l: FillV) -> Seq<char>
    decreases l,
{
    match l {
        FillV::Nil => Seq::empty(),
        FillV::Last(c) => flat_text(*c),
        FillV::More(c, s, r) => flat_text(*c) + flat_text(*s) + flat_text_fill(*r),
    }
}

/// The text that a flat rendering of the document defers to the end of the
/// line: the flattened contents of its `LineSuffix` nodes, in order.
pub open spec fn pend_text(d: DocV) -> Seq<char>
    decreases d,
{
    match d {
        DocV::Nil => Seq::empty(),
        DocV::Text(_) => Seq::empty(),
        DocV::Comment(_) => Seq::empty(),
        DocV::Line(_) => Seq::empty(),
        DocV::Concat(a, b) => pend_text(*a) + pend_text(*b),
        DocV::Group(_, _, a) => pend_text(*a),
        DocV::Indent(a) => pend_text(*a),
        DocV::Fill(l) => pend_text_fill(*l),
        DocV::LineSuffix(a) => suffix_text(*a),
        DocV::IfBroken(_, _, fl) => pend_text(*fl),
    }
}

pub open spec fn pend_text_fill(l: FillV) -> Seq<char>
    decreases l,
{
    match l {
        FillV::Nil => Seq::empty(),
        FillV::Last(c) => pend_text(*c),
        FillV::More(c, s, r) => pend_text(*c) + pend_text(*s) + pend_text_fill(*r),
    }
}

/// The text a document contributes once it already sits inside deferred
/// line-suffix content: a flat rendering with nested deferred content
/// spliced in place.
pub open spec fn suffix_text(d: DocV) -> Seq<char>
    decreases d,
{
    match d {
        DocV::Nil => Seq::empty(),
        DocV::Text(s) => s,
        DocV::Comment(s) => s,
        DocV::Line(k) => if k == LineKind::Space {
            seq![' ']
        } else if k == LineKind::Soft {
            Seq::empty()
        } else {
            seq!['\n']
        },
        DocV::Concat(a, b) => suffix_text(*a) + suffix_text(*b),
        DocV::Group(_, _, a) => suffix_text(*a),
        DocV::Indent(a) => suffix_text(*a),
        DocV::Fill(l) => suffix_text_fill(*l),
        DocV::LineSuffix(a) => suffix_text(*a),
        DocV::IfBroken(_, _, fl) => suffix_text(*fl),
    }
}

pub open spec fn suffix_text_fill(l: FillV) -> Seq<char>
    decreases l,
{
    match l {
        FillV::Nil => Seq::empty(),
        FillV::Last(c) => suffix_text(*c),
        FillV::More(c, s, r) => suffix_text(*c) + suffix_text(*s) + suffix_text_fill(*r),
    }
}

/// The comment texts carried by the document, in order.
pub open spec fn doc_comments(d: DocV) -> Seq<Seq<char>>
    decreases d,
{
    match d {
        DocV::Nil => Seq::empty(),
        DocV::Text(_) => Seq::empty(),
        DocV::Comment(s) => seq![s],
        DocV::Line(_) => Seq::empty(),
        DocV::Concat(a, b) => doc_comments(*a) + doc_comments(*b),
        DocV::Group(_, _, a) => doc_comments(*a),
        DocV::Indent(a) => doc_comments(*a),
        DocV::Fill(l) => doc_comments_fill(*l),
        DocV::LineSuffix(a) => doc_comments(*a),
        DocV::IfBroken(_, br, fl) => doc_comments(*br) + doc_comments(*fl),
    }
}

pub open spec fn doc_comments_fill(l: FillV) -> Seq<Seq<char>>
    decreases l,
{
    match l {
        FillV::Nil => Seq::empty(),
        FillV::Last(c) => doc_comments(*c),
        FillV::More(c, s, r) => doc_comments(*c) + doc_comments(*s) + doc_comments_fill(*r),
    }
}

/// Whether none of the document's literal text pieces holds a line break of
/// its own. Verbatim fallback text is the one source of such pieces.
pub open spec fn text_clean(d: DocV) -> bool
    decreases d,
{
    match d {
        DocV::Nil => true,
        DocV::Text(s) => !s.contains('\n'),
        DocV::Comment(s) => !s.contains('\n'),
        DocV::Line(_) => true,
        DocV::Concat(a, b) => text_clean(*a) && text_clean(*b),
        DocV::Group(_, _, a) => text_clean(*a),
        DocV::Indent(a) => text_clean(*a),
        DocV::Fill(l) => text_clean_fill(*l),
        DocV::LineSuffix(a) => text_clean(*a),
        DocV::IfBroken(_, br, fl) => text_clean(*br) && text_clean(*fl),
    }
}

pub open spec fn text_clean_fill(l: FillV) -> bool
    decreases l,
{
    match l {
        FillV::Nil => true,
        FillV::Last(c) => text_clean(*c),
        FillV::More(c, s, r) => text_clean(*c) && text_clean(*s) && text_clean_fill(*r),
    }
}

/// Whether the document carries no group identifier and no conditional
/// reference to one. Identifiers are handed out by whoever builds the
/// document; a document without any trivially satisfies the invariant that
/// each identifier occurs on at most one group of a tree.
pub open spec fn id_free(d: DocV) -> bool
    decreases d,
{
    match d {
        DocV::Nil => true,
        DocV::Text(_) => true,
        DocV::Comment(_) => true,
        DocV::Line(_) => true,
        DocV::Concat(a, b) => id_free(*a) && id_free(*b),
        DocV::Group(id, _, a) => id is None && id_free(*a),
        DocV::Indent(a) => id_free(*a),
        DocV::Fill(l) => id_free_fill(*l),
        DocV::LineSuffix(a) => id_free(*a),
        DocV::IfBroken(id, br, fl) => id is None && id_free(*br) && id_free(*fl),
    }
}

pub open spec fn id_free_fill(l: FillV) -> bool
    decreases l,
{
    match l {
        FillV::Nil => true,
        FillV::Last(c) => id_free(*c),
        FillV::More(c, s, r) => id_free(*c) && id_free(*s) && id_free_fill(*r),
    }
}

/// The smaller of two naturals.
pub open spec fn min_n(a: nat, b: nat) -> nat {
    if a <= b {
        a
    } else {
        b
    }
}

/// The empty fragment.
pub fn nil() -> (d: Doc)
    ensures
        d@ == DocV::Nil,
{
    Doc::Nil
}

/// A literal text fragment.
pub fn text(s: String) -> (d: Doc)
    ensures
        d@ == DocV::Text(s@),
{
    Doc::Text(s)
}

/// A comment fragment.
pub fn comment(s: String) -> (d: Doc)
    ensures
        d@ == DocV::Comment(s@),
{
    Doc::Comment(s)
}

/// A line break of the given kind.
pub fn line_break(k: LineKind) -> (d: Doc)
    ensures
        d@ == DocV::Line(k),
{
    Doc::Line(k)
}

/// Two fragments in sequence.
pub fn cat(a: Doc, b: Doc) -> (d: Doc)
    ensures
        d@ == DocV::Concat(Box::new(a@), Box::new(b@)),
{
    Doc::Concat(Box::new(a), Box::new(b))
}

/// An anonymous breakable group.
pub fn group(a: Doc) -> (d: Doc)
    ensures
        d@ == DocV::Group(None, true, Box::new(a@)),
{
    Doc::Group(None, true, Box::new(a))
}

/// A group that keeps its flat rendering however wide it is; only a forced
/// break inside it still breaks it.
pub fn group_unbreakable(a: Doc) -> (d: Doc)
    ensures
        d@ == DocV::Group(None, false, Box::new(a@)),
{
    Doc::Group(None, false, Box::new(a))
}

/// A breakable group remembered under `id`.
pub fn group_with_id(id: u32, a: Doc) -> (d: Doc)
    ensures
        d@ == DocV::Group(Some(id), true, Box::new(a@)),
{
    Doc::Group(Some(id), true, Box::new(a))
}

/// One more level of indentation around the fragment.
pub fn indent(a: Doc) -> (d: Doc)
    ensures
        d@ == DocV::Indent(Box::new(a@)),
{
    Doc::Indent(Box::new(a))
}

/// A fill over the given alternation.
pub fn fill(l: FillList) -> (d: Doc)
    ensures
        d@ == DocV::Fill(Box::new(l@)),
{
    Doc::Fill(Box::new(l))
}

/// Content deferred to just before the next emitted line break.
pub fn line_suffix(a: Doc) -> (d: Doc)
    ensures
        d@ == DocV::LineSuffix(Box::new(a@)),
{
    Doc::LineSuffix(Box::new(a))
}

/// Conditional content resolved by the enclosing group's mode.
pub fn if_broken(br: Doc, fl: Doc) -> (d: Doc)
    ensures
        d@ == DocV::IfBroken(None, Box::new(br@), Box::new(fl@)),
{
    Doc::IfBroken(None, Box::new(br), Box::new(fl))
}

/// Conditional content resolved by the remembered decision of group `id`.
pub fn if_group_broken(id: u32, br: Doc, fl: Doc) -> (d: Doc)
    ensures
        d@ == DocV::IfBroken(Some(id), Box::new(br@), Box::new(fl@)),
{
    Doc::IfBroken(Some(id), Box::new(br), Box::new(fl))
}

/// The empty fill alternation.
pub fn fill_nil() -> (l: FillList)
    ensures
        l@ == FillV::Nil,
{
    FillList::Nil
}

/// The alternation of a single final content.
pub fn fill_last(c: Doc) -> (l: FillList)
    ensures
        l@ == FillV::Last(Box::new(c@)),
{
    FillList::Last(Box::new(c))
}

/// A content and its separator in front of a further alternation.
pub fn fill_more(c: Doc, s: Doc, r: FillList) -> (l: FillList)
    ensures
        l@ == FillV::More(Box::new(c@), Box::new(s@), Box::new(r@)),
{
    FillList::More(Box::new(c), Box::new(s), Box::new(r))
}

/// Measures the document for the fitting rule: its flat width up to the
/// first forced break, capped at `cap`, together with whether it holds a
/// forced break at all.
pub fn span(d: &Doc, cap: usize) -> (r: (usize, bool))
    requires
        cap <= 65536,
    ensures
        r.0 as nat == min_n(flat_len(d@), cap as nat),
        r.1 == forced(d@),
    decreases *d,
{
    match d {
        Doc::Nil => (0, false),
        Doc::Text(s) => {
            let n = s.as_str().unicode_len();
            (if n <= cap { n } else { cap }, false)
        },
        Doc::Comment(s) => {
            let n = s.as_str().unicode_len();
            (if n <= cap { n } else { cap }, false)
        },
        Doc::Line(k) => {
            match k {
                LineKind::Soft => (0, false),
                LineKind::Space => (if 1 <= cap { 1 } else { cap }, false),
                LineKind::Hard => (0, true),
                LineKind::Blank => (0, true),
            }
        },
        Doc::Concat(a, b) => {
            let (wa, fa) = span(a, cap);
            if fa {
                (wa, true)
            } else {
                let (wb, fb) = span(b, cap);
                let w = if wa + wb <= cap { wa + wb } else { cap };
                (w, fb)
            }
        },
        Doc::Group(_, _, a) => span(a, cap),
        Doc::Indent(a) => span(a, cap),
        Doc::Fill(l) => span_fill(l, cap),
        Doc::LineSuffix(_) => (0, false),
        Doc::IfBroken(_, _, fl) => {
            let (w, f) = span(fl, cap);
            (w, f)
        },
    }
}

/// Measures a fill alternation the same way [`span`] measures a document.
pub fn span_fill(l: &FillList, cap: usize) -> (r: (usize, bool))
    requires
        cap <= 65536,
    ensures
        r.0 as nat == min_n(flat_len_fill(l@), cap as nat),
        r.1 == forced_fill(l@),
    decreases *l,
{
    match l {
        FillList::Nil => (0, false),
        FillList::Last(c) => span(c, cap),
        FillList::More(c, s, r) => {
            let (wc, fc) = span(c, cap);
            let (ws, fs) = span(s, cap);
            let (wr, fr) = span_fill(r, cap);
            if fc {
                (wc, true)
            } else if fs {
                let w = if wc + ws <= cap { wc + ws } else { cap };
                (w, true)
            } else {
                let w0 = if wc + ws <= cap { wc + ws } else { cap };
                let w = if w0 + wr <= cap { w0 + wr } else { cap };
                (w, fr)
            }
        },
    }
}

} // verus!
