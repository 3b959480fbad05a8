//! The printer: resolves a Document IR tree into concrete text.
//!
//! The printer walks the document depth-first with an explicit mode per
//! group, flat or broken. A group's mode is decided by the fitting rule: the
//! group and what follows it up to the next forced break are measured
//! entirely flat from the current column, and the group breaks exactly when
//! that measure exceeds the width budget or a forced break inside it leaves
//! no choice. Inside a flat group no further decisions are made. Deferred
//! line-suffix content is buffered and flushed just before the next emitted
//! line break. The printer is a pure function of the document and the
//! context: its whole behaviour is the specification [`spec_doc`], and it
//! never fails.
//!
//! Columns are counted one per character; a text fragment that carries its
//! own line breaks (verbatim fallback) is counted by its length, which only
//! over-approximates the room it needs. Indentation deeper than 255 levels
//! is capped at 255.

use vstd::prelude::*;

use crate::config::FormatOptions;
use crate::config::IndentKind;
use crate::doc::Doc;
use crate::doc::DocV;
use crate::doc::FillList;
use crate::doc::FillV;
use crate::doc::LineKind;
use crate::doc::flat_len;
use crate::doc::forced;
use crate::doc::min_n;
use crate::doc::span;
use crate::doc::suffix_text;
use crate::doc::suffix_text_fill;

verus! {

/// The rendering mode of the position the printer is at.
#[derive(Clone, Copy, Debug, PartialEq, Eq, Structural)]
pub enum Mode {
    /// Inside a group that fits: optional breaks render flat.
    Flat,
    /// Between or inside broken groups: optional breaks render as breaks.
    Broken,
}

/// The printer's state, mathematically: the text emitted so far, the column
/// on the current line, the buffered line-suffix text, and the remembered
/// group decisions (`true` means broken), newest last.
pub struct StateV {
    pub out: Seq<char>,
    pub col: nat,
    pub pending: Seq<char>,
    pub memo: Seq<(u32, bool)>,
}

/// The empty printer state.
pub open spec fn empty_state() -> StateV {
    StateV { out: Seq::empty(), col: 0, pending: Seq::empty(), memo: Seq::empty() }
}

/// A natural capped at the machine word.
pub open spec fn cap_usize(n: nat) -> nat {
    min_n(n, usize::MAX as nat)
}

/// The measuring cap of a run: one more than the width budget, so that any
/// measure at the cap already fails every fit test.
pub open spec fn cap_of(opts: FormatOptions) -> usize {
    (opts.width + 1) as usize
}

/// The remembered decision of group `id`, newest entry first; `dflt` when no
/// entry exists.
pub open spec fn memo_get(m: Seq<(u32, bool)>, id: u32, dflt: bool) -> bool
    decreases m.len(),
{
    if m.len() == 0 {
        dflt
    } else if m.last().0 == id {
        m.last().1
    } else {
        memo_get(m.drop_last(), id, dflt)
    }
}

/// The fitting test: whether a fragment of flat width `w`, followed on its
/// line by `tail` more flat characters, fits the width budget from column
/// `col`.
pub open spec fn fits(col: nat, w: usize, tail: usize, opts: FormatOptions) -> bool {
    col + w + tail <= opts.width
}

/// The character one indentation unit is written with.
pub open spec fn ind_char(opts: FormatOptions) -> char {
    match opts.indent_kind {
        IndentKind::Space => ' ',
        IndentKind::Tab => '\t',
    }
}

/// How many characters the indentation of `level` levels occupies.
pub open spec fn ind_chars(level: usize, opts: FormatOptions) -> nat {
    let lv = min_n(level as nat, 255);
    match opts.indent_kind {
        IndentKind::Space => (lv * opts.indent_size) as nat,
        IndentKind::Tab => lv,
    }
}

/// The state after emitting plain text: it lands in the output and widens
/// the current line.
pub open spec fn st_push(st: StateV, s: Seq<char>) -> StateV {
    StateV { out: st.out + s, col: cap_usize(st.col + s.len()), pending: st.pending, memo: st.memo }
}

/// The state after emitting a line break: buffered suffix text is flushed,
/// the break (doubled for a kept blank line) is emitted, and the new line
/// opens with the indentation of `level`.
pub open spec fn st_line(st: StateV, level: usize, blank: bool, opts: FormatOptions) -> StateV {
    let brk: Seq<char> = if blank {
        seq!['\n', '\n']
    } else {
        seq!['\n']
    };
    StateV {
        out: st.out + st.pending + brk + Seq::new(ind_chars(level, opts), |i: int| ind_char(opts)),
        col: ind_chars(level, opts),
        pending: Seq::empty(),
        memo: st.memo,
    }
}

/// The tail handed to the left part of a sequence: the flat width of the
/// right part up to its first forced break, plus the outer tail when the
/// right part has no such break; capped.
pub open spec fn concat_tail(b: DocV, tail: usize, opts: FormatOptions) -> usize {
    let cap = cap_of(opts);
    let wb = min_n(flat_len(b), cap as nat) as usize;
    if forced(b) {
        wb
    } else if wb + tail > cap {
        cap
    } else {
        (wb + tail) as usize
    }
}

/// One more indentation level, saturating.
pub open spec fn bump(level: usize) -> usize {
    if level < usize::MAX {
        (level + 1) as usize
    } else {
        level
    }
}

/// The flat width and forced-break flag of the first content of a fill.
pub open spec fn fill_head(l: FillV) -> (nat, bool) {
    match l {
        FillV::Nil => (0, false),
        FillV::Last(c) => (flat_len(*c), forced(*c)),
        FillV::More(c, _, _) => (flat_len(*c), forced(*c)),
    }
}

/// The meaning of printing one document: how it takes the printer from one
/// state to the next, given the mode, the indentation level and the flat
/// width `tail` that will follow it on its line up to the next forced break.
pub open spec fn spec_doc(
    d: DocV,
    mode: Mode,
    level: usize,
    tail: usize,
    st: StateV,
    opts: FormatOptions,
) -> StateV
    decreases d,
{
    match d {
        DocV::Nil => st,
        DocV::Text(s) => st_push(st, s),
        DocV::Comment(s) => st_push(st, s),
        DocV::Line(k) => match k {
            LineKind::Soft => if mode == Mode::Broken {
                st_line(st, level, false, opts)
            } else {
                st
            },
            LineKind::Space => if mode == Mode::Broken {
                st_line(st, level, false, opts)
            } else {
                st_push(st, seq![' '])
            },
            LineKind::Hard => st_line(st, level, false, opts),
            LineKind::Blank => st_line(st, level, true, opts),
        },
        DocV::Concat(a, b) => {
            let ta = concat_tail(*b, tail, opts);
            spec_doc(*b, mode, level, tail, spec_doc(*a, mode, level, ta, st, opts), opts)
        },
        DocV::Group(id, can_break, a) => match mode {
            Mode::Flat => spec_doc(*a, Mode::Flat, level, tail, st, opts),
            Mode::Broken => {
                let w = min_n(flat_len(*a), cap_of(opts) as nat) as usize;
                let f = forced(*a);
                let broken = if f {
                    true
                } else if !can_break {
                    false
                } else {
                    !fits(st.col, w, tail, opts)
                };
                let st1 = match id {
                    Some(i) => StateV { memo: st.memo.push((i, broken)), ..st },
                    None => st,
                };
                spec_doc(
                    *a,
                    if broken {
                        Mode::Broken
                    } else {
                        Mode::Flat
                    },
                    level,
                    tail,
                    st1,
                    opts,
                )
            },
        },
        DocV::Indent(a) => spec_doc(*a, mode, bump(level), tail, st, opts),
        DocV::Fill(l) => spec_fill(*l, mode, level, tail, st, opts),
        DocV::LineSuffix(a) => StateV {
            out: st.out,
            col: st.col,
            pending: st.pending + suffix_text(*a),
            memo: st.memo,
        },
        DocV::IfBroken(id, br, fl) => match mode {
            Mode::Flat => spec_doc(*fl, Mode::Flat, level, tail, st, opts),
            Mode::Broken => {
                let b = match id {
                    None => true,
                    Some(i) => memo_get(st.memo, i, true),
                };
                if b {
                    spec_doc(*br, Mode::Broken, level, tail, st, opts)
                } else {
                    spec_doc(*fl, Mode::Flat, level, tail, st, opts)
                }
            },
        },
    }
}

/// The meaning of printing a fill alternation. In broken surroundings every
/// content is measured on its own against the remaining room (the last one
/// together with the outer tail) and rendered flat exactly when it fits, and
/// a separator renders flat exactly when the content after it fits on the
/// current line behind it; separators thus break independently of one
/// another. Inside a flat group the whole alternation renders flat.
pub open spec fn spec_fill(
    l: FillV,
    mode: Mode,
    level: usize,
    tail: usize,
    st: StateV,
    opts: FormatOptions,
) -> StateV
    decreases l,
{
    match l {
        FillV::Nil => st,
        FillV::Last(c) => {
            let m = fill_item_mode(*c, mode, tail, st, opts);
            spec_doc(*c, m, level, tail, st, opts)
        },
        FillV::More(c, s, r) => {
            let m = fill_item_mode(*c, mode, 0, st, opts);
            let st1 = spec_doc(*c, m, level, 0, st, opts);
            let ms = fill_sep_mode(*s, *r, mode, st1, opts);
            let st2 = spec_doc(*s, ms, level, 0, st1, opts);
            spec_fill(*r, mode, level, tail, st2, opts)
        },
    }
}

/// The mode one fill content is rendered in.
pub open spec fn fill_item_mode(
    c: DocV,
    mode: Mode,
    tail: usize,
    st: StateV,
    opts: FormatOptions,
) -> Mode {
    if mode == Mode::Flat {
        Mode::Flat
    } else {
        let w = min_n(flat_len(c), cap_of(opts) as nat) as usize;
        if !forced(c) && fits(st.col, w, tail, opts) {
            Mode::Flat
        } else {
            Mode::Broken
        }
    }
}

/// The mode one fill separator is rendered in: flat exactly when the content
/// after it would fit flat on the current line behind the flat separator.
pub open spec fn fill_sep_mode(s: DocV, r: FillV, mode: Mode, st: StateV, opts: FormatOptions) -> Mode {
    if mode == Mode::Flat {
        Mode::Flat
    } else {
        let ws = min_n(flat_len(s), cap_of(opts) as nat) as usize;
        let wn = min_n(fill_head(r).0, cap_of(opts) as nat) as usize;
        if !forced(s) && !fill_head(r).1 && st.col + ws + wn <= opts.width {
            Mode::Flat
        } else {
            Mode::Broken
        }
    }
}

/// The text of the whole printed document: the final state's output with the
/// still-buffered suffix text flushed after it.
pub open spec fn printed(d: DocV, opts: FormatOptions) -> Seq<char> {
    let st = spec_doc(d, Mode::Broken, 0, 0, empty_state(), opts);
    st.out + st.pending
}

/// The printer's mutable state: the output built so far, the current column,
/// the buffered line-suffix text, and the remembered group decisions.
pub struct Printer {
    pub out: String,
    pub col: usize,
    pub pending: String,
    pub memo: Vec<(u32, bool)>,
}

impl View for Printer {
    type V = StateV;

    open spec fn view(&self) -> StateV {
        StateV { out: self.out@, col: self.col as nat, pending: self.pending@, memo: self.memo@ }
    }
}

/// Adds with saturation at the machine word.
fn add_cap(a: usize, b: usize) -> (r: usize)
    ensures
        r as nat == cap_usize(a as nat + b as nat),
{
    if b <= usize::MAX - a {
        a + b
    } else {
        usize::MAX
    }
}

impl Printer {
    /// A printer with nothing emitted yet.
    pub fn new() -> (p: Printer)
        ensures
            p@ == empty_state(),
    {
        let p = Printer { out: String::new(), col: 0, pending: String::new(), memo: Vec::new() };
        proof {
            assert(p@.out =~= empty_state().out);
            assert(p@.pending =~= empty_state().pending);
            assert(p@.memo =~= empty_state().memo);
        }
        p
    }

    /// Emits plain text onto the current line.
    fn put(&mut self, s: &str)
        ensures
            final(self)@ == st_push(old(self)@, s@),
    {
        self.out.append(s);
        let n = s.unicode_len();
        self.col = add_cap(self.col, n);
    }

    /// Emits a line break: flushes buffered suffix text, breaks (twice for a
    /// kept blank line) and writes the indentation of `level`.
    fn newline(&mut self, level: usize, blank: bool, opts: &FormatOptions)
        ensures
            final(self)@ == st_line(old(self)@, level, blank, *opts),
    {
        self.out.append(self.pending.as_str());
        self.pending = String::new();
        if blank {
            let brk = "\n\n";
            proof {
                reveal_strlit("\n\n");
                assert(brk@ =~= seq!['\n', '\n']);
            }
            self.out.append(brk);
        } else {
            let brk = "\n";
            proof {
                reveal_strlit("\n");
                assert(brk@ =~= seq!['\n']);
            }
            self.out.append(brk);
        }
        let lv = if level > 255 {
            255
        } else {
            level
        };
        let unit: &str;
        let total: usize;
        match opts.indent_kind {
            IndentKind::Space => {
                proof {
                    assert(lv * (opts.indent_size as usize) <= 255 * 255) by (nonlinear_arith)
                        requires
                            lv <= 255,
                            opts.indent_size <= 255,
                    ;
                }
                unit = " ";
                total = lv * (opts.indent_size as usize);
                proof {
                    reveal_strlit(" ");
                    assert(unit@ =~= seq![ind_char(*opts)]);
                }
            },
            IndentKind::Tab => {
                unit = "\t";
                total = lv;
                proof {
                    reveal_strlit("\t");
                    assert(unit@ =~= seq![ind_char(*opts)]);
                }
            },
        }
        proof {
            assert(total as nat == ind_chars(level, *opts));
        }
        let ghost base = self.out@;
        self.col = 0;
        let mut j: usize = 0;
        while j < total
            invariant
                j <= total,
                unit@ == seq![ind_char(*opts)],
                self.out@ == base + Seq::new(j as nat, |i: int| ind_char(*opts)),
                self.col == j,
                self.pending@ == Seq::<char>::empty(),
                self.memo@ == old(self)@.memo,
                total <= 65025,
            decreases total - j,
        {
            self.out.append(unit);
            proof {
                assert(self.out@ =~= base + Seq::new((j + 1) as nat, |i: int| ind_char(*opts)));
            }
            self.col = self.col + 1;
            j = j + 1;
        }
        proof {
            assert(self@.out =~= st_line(old(self)@, level, blank, *opts).out);
            assert(self@ == st_line(old(self)@, level, blank, *opts));
        }
    }

    /// The remembered decision of group `id`; broken when none is
    /// remembered.
    fn memo_lookup(&self, id: u32) -> (r: bool)
        ensures
            r == memo_get(self@.memo, id, true),
    {
        let mut j = self.memo.len();
        proof {
            assert(self.memo@.subrange(0, j as int) =~= self.memo@);
        }
        while j > 0
            invariant
                j <= self.memo.len(),
                memo_get(self.memo@, id, true) == memo_get(
                    self.memo@.subrange(0, j as int),
                    id,
                    true,
                ),
            decreases j,
        {
            j = j - 1;
            let entry = self.memo[j];
            proof {
                assert(self.memo@.subrange(0, j + 1).last() == self.memo@[j as int]);
                assert(self.memo@.subrange(0, j + 1).drop_last() =~= self.memo@.subrange(
                    0,
                    j as int,
                ));
            }
            if entry.0 == id {
                return entry.1;
            }
        }
        proof {
            assert(self.memo@.subrange(0, 0) =~= Seq::<(u32, bool)>::empty());
        }
        true
    }

    /// Renders a document into the suffix buffer.
    fn suffix(&mut self, d: &Doc)
        ensures
            final(self)@ == (StateV {
                pending: old(self)@.pending + suffix_text(d@),
                ..old(self)@
            }),
        decreases *d,
    {
        match d {
            Doc::Nil => {
                proof {
                    assert(self@.pending =~= self@.pending + suffix_text(d@));
                }
            },
            Doc::Text(s) => {
                self.pending.append(s.as_str());
            },
            Doc::Comment(s) => {
                self.pending.append(s.as_str());
            },
            Doc::Line(k) => {
                match k {
                    LineKind::Soft => {
                        proof {
                            assert(self@.pending =~= self@.pending + suffix_text(d@));
                        }
                    },
                    LineKind::Space => {
                        let sp = " ";
                        proof {
                            reveal_strlit(" ");
                            assert(sp@ =~= seq![' ']);
                        }
                        self.pending.append(sp);
                    },
                    LineKind::Hard => {
                        let nl = "\n";
                        proof {
                            reveal_strlit("\n");
                            assert(nl@ =~= seq!['\n']);
                        }
                        self.pending.append(nl);
                    },
                    LineKind::Blank => {
                        let nl = "\n";
                        proof {
                            reveal_strlit("\n");
                            assert(nl@ =~= seq!['\n']);
                        }
                        self.pending.append(nl);
                    },
                }
            },
            Doc::Concat(a, b) => {
                self.suffix(a);
                self.suffix(b);
            },
            Doc::Group(_, _, a) => self.suffix(a),
            Doc::Indent(a) => self.suffix(a),
            Doc::Fill(l) => self.suffix_fill(l),
            Doc::LineSuffix(a) => self.suffix(a),
            Doc::IfBroken(_, _, fl) => self.suffix(fl),
        }
        proof {
            assert(self@.pending =~= old(self)@.pending + suffix_text(d@));
        }
    }

    /// Renders a fill alternation into the suffix buffer.
    fn suffix_fill(&mut self, l: &FillList)
        ensures
            final(self)@ == (StateV {
                pending: old(self)@.pending + suffix_text_fill(l@),
                ..old(self)@
            }),
        decreases *l,
    {
        match l {
            FillList::Nil => {
                proof {
                    assert(self@.pending =~= self@.pending + suffix_text_fill(l@));
                }
            },
            FillList::Last(c) => self.suffix(c),
            FillList::More(c, s, r) => {
                self.suffix(c);
                self.suffix(s);
                self.suffix_fill(r);
            },
        }
        proof {
            assert(self@.pending =~= old(self)@.pending + suffix_text_fill(l@));
        }
    }

    /// Prints one document: the executable twin of [`spec_doc`].
    pub fn doc(&mut self, d: &Doc, mode: Mode, level: usize, tail: usize, opts: &FormatOptions)
        requires
            tail <= cap_of(*opts),
        ensures
            final(self)@ == spec_doc(d@, mode, level, tail, old(self)@, *opts),
        decreases *d,
    {
        let cap = cap_of_x(opts);
        match d {
            Doc::Nil => {},
            Doc::Text(s) => self.put(s.as_str()),
            Doc::Comment(s) => self.put(s.as_str()),
            Doc::Line(k) => {
                match k {
                    LineKind::Soft => {
                        if mode == Mode::Broken {
                            self.newline(level, false, opts);
                        }
                    },
                    LineKind::Space => {
                        if mode == Mode::Broken {
                            self.newline(level, false, opts);
                        } else {
                            let sp = " ";
                            proof {
                                reveal_strlit(" ");
                                assert(sp@ =~= seq![' ']);
                            }
                            self.put(sp);
                        }
                    },
                    LineKind::Hard => self.newline(level, false, opts),
                    LineKind::Blank => self.newline(level, true, opts),
                }
            },
            Doc::Concat(a, b) => {
                let (wb, fb) = span(b, cap);
                let ta = if fb {
                    wb
                } else if wb + tail > cap {
                    cap
                } else {
                    wb + tail
                };
                proof {
                    assert(ta == concat_tail(b@, tail, *opts));
                }
                self.doc(a, mode, level, ta, opts);
                self.doc(b, mode, level, tail, opts);
            },
            Doc::Group(id, can_break, a) => {
                match mode {
                    Mode::Flat => self.doc(a, Mode::Flat, level, tail, opts),
                    Mode::Broken => {
                        let (w, f) = span(a, cap);
                        let fit = self.col <= opts.width as usize && w + tail <= opts.width
                            as usize - self.col;
                        let broken = if f {
                            true
                        } else if !*can_break {
                            false
                        } else {
                            !fit
                        };
                        if let Some(i) = id {
                            self.memo.push((*i, broken));
                        }
                        self.doc(
                            a,
                            if broken {
                                Mode::Broken
                            } else {
                                Mode::Flat
                            },
                            level,
                            tail,
                            opts,
                        );
                    },
                }
            },
            Doc::Indent(a) => {
                let l2 = if level < usize::MAX {
                    level + 1
                } else {
                    level
                };
                self.doc(a, mode, l2, tail, opts);
            },
            Doc::Fill(l) => self.fill(l, mode, level, tail, opts),
            Doc::LineSuffix(a) => self.suffix(a),
            Doc::IfBroken(id, br, fl) => {
                match mode {
                    Mode::Flat => self.doc(fl, Mode::Flat, level, tail, opts),
                    Mode::Broken => {
                        let b = match id {
                            None => true,
                            Some(i) => self.memo_lookup(*i),
                        };
                        if b {
                            self.doc(br, Mode::Broken, level, tail, opts);
                        } else {
                            self.doc(fl, Mode::Flat, level, tail, opts);
                        }
                    },
                }
            },
        }
    }

    /// Prints a fill alternation: the executable twin of [`spec_fill`].
    fn fill(&mut self, l: &FillList, mode: Mode, level: usize, tail: usize, opts: &FormatOptions)
        requires
            tail <= cap_of(*opts),
        ensures
            final(self)@ == spec_fill(l@, mode, level, tail, old(self)@, *opts),
        decreases *l,
    {
        let cap = cap_of_x(opts);
        match l {
            FillList::Nil => {},
            FillList::Last(c) => {
                let m = self.item_mode(c, mode, tail, opts);
                self.doc(c, m, level, tail, opts);
            },
            FillList::More(c, s, r) => {
                let m = self.item_mode(c, mode, 0, opts);
                self.doc(c, m, level, 0, opts);
                let ms = self.sep_mode(s, r, mode, opts);
                self.doc(s, ms, level, 0, opts);
                self.fill(r, mode, level, tail, opts);
            },
        }
    }

    /// Decides the mode of one fill content.
    fn item_mode(&self, c: &Doc, mode: Mode, tail: usize, opts: &FormatOptions) -> (m: Mode)
        requires
            tail <= cap_of(*opts),
        ensures
            m == fill_item_mode(c@, mode, tail, self@, *opts),
    {
        if mode == Mode::Flat {
            Mode::Flat
        } else {
            let (w, f) = span(c, cap_of_x(opts));
            if !f && self.col <= opts.width as usize && w + tail <= opts.width as usize
                - self.col {
                Mode::Flat
            } else {
                Mode::Broken
            }
        }
    }

    /// Decides the mode of one fill separator.
    fn sep_mode(&self, s: &Doc, r: &FillList, mode: Mode, opts: &FormatOptions) -> (m: Mode)
        ensures
            m == fill_sep_mode(s@, r@, mode, self@, *opts),
    {
        if mode == Mode::Flat {
            Mode::Flat
        } else {
            let cap = cap_of_x(opts);
            let (ws, fs) = span(s, cap);
            let (wn, fn_) = match r {
                FillList::Nil => (0usize, false),
                FillList::Last(c) => span(c, cap),
                FillList::More(c, _, _) => span(c, cap),
            };
            if !fs && !fn_ && self.col <= opts.width as usize && ws + wn <= opts.width as usize
                - self.col {
                Mode::Flat
            } else {
                Mode::Broken
            }
        }
    }
}

/// The measuring cap of a run, executably.
fn cap_of_x(opts: &FormatOptions) -> (c: usize)
    ensures
        c == cap_of(*opts),
        c <= 65536,
{
    (opts.width as usize) + 1
}

/// Prints a document under the given context. The output is exactly
/// [`printed`]`(d@, *opts)`: the printer is a pure function of the document
/// and the context, and it cannot fail.
pub fn render(d: &Doc, opts: &FormatOptions) -> (out: String)
    ensures
        out@ == printed(d@, *opts),
{
    let mut p = Printer::new();
    p.doc(d, Mode::Broken, 0, 0, opts);
    let Printer { mut out, col: _, pending, memo: _ } = p;
    out.append(pending.as_str());
    out
}

} // verus!
