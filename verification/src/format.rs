//! The whole pipeline: syntax tree in, formatted text out.

use vstd::prelude::*;

use crate::config::Configuration;
use crate::config::ConfigurationError;
use crate::config::FormatOptions;
use crate::mapping::map_doc;
use crate::mapping::to_doc;
use crate::printer::render;
use crate::printer::printed;
use crate::syntax::Node;
use crate::syntax::NodeList;
use crate::syntax::NodeListV;
use crate::syntax::NodeV;

verus! {

/// The text one syntax tree formats to under a context: its document,
/// printed.
pub open spec fn formatted(n: NodeV, opts: FormatOptions) -> Seq<char> {
    printed(map_doc(n, opts), opts)
}

/// The context a configuration resolves to.
pub open spec fn config_options(c: Configuration) -> FormatOptions {
    FormatOptions {
        width: c.formatter.line_width,
        indent_kind: c.formatter.indent_kind,
        indent_size: c.formatter.indent_size,
        quote_style: c.javascript.quote_style,
    }
}

/// Formats one syntax tree under an already-validated context.
pub fn format_node(n: &Node, opts: &FormatOptions) -> (out: String)
    ensures
        out@ == formatted(n@, *opts),
{
    let d = to_doc(n, opts);
    render(&d, opts)
}

/// Formats one syntax tree under a configuration: the configuration is
/// checked first and each invalid one is rejected with its error before any
/// formatting begins.
pub fn format_with_configuration(n: &Node, cfg: &Configuration) -> (r: Result<
    String,
    ConfigurationError,
>)
    ensures
        !cfg.root ==> r == Err::<String, ConfigurationError>(ConfigurationError::NotRoot),
        cfg.root && cfg.formatter.line_width == 0 ==> r == Err::<String, ConfigurationError>(
            ConfigurationError::InvalidLineWidth,
        ),
        cfg.root && cfg.formatter.line_width >= 1 ==> r is Ok && r.unwrap()@ == formatted(
            n@,
            config_options(*cfg),
        ),
{
    match cfg.validate() {
        Err(e) => Err(e),
        Ok(opts) => Ok(format_node(n, &opts)),
    }
}

/// The verbatim regions of a tree: the source texts of the nodes that the
/// parser marked as erroneous, which format as they stand instead of being
/// pretty-printed. In source order.
pub open spec fn raw_texts(n: NodeV) -> Seq<Seq<char>>
    decreases n,
{
    match n {
        NodeV::Atom(_) => Seq::empty(),
        NodeV::StringLit(_) => Seq::empty(),
        NodeV::Call { callee, args, .. } => raw_texts(*callee) + raw_texts_list(args),
        NodeV::Block { stmts, .. } => raw_texts_list(stmts),
        NodeV::EmptyModuleBody { .. } => Seq::empty(),
        NodeV::Raw { text } => seq![text],
    }
}

/// The verbatim regions of a node list, in order.
pub open spec fn raw_texts_list(l: NodeListV) -> Seq<Seq<char>>
    decreases l,
{
    match l {
        NodeListV::Nil => Seq::empty(),
        NodeListV::Cons(n, rest) => raw_texts(*n) + raw_texts_list(*rest),
    }
}

/// Collects the advisory list of verbatim regions: formatting never fails on
/// them, but a caller may want to surface where pretty-printing degraded.
pub fn verbatim_regions(n: &Node) -> (r: Vec<String>)
    ensures
        r@.map_values(|s: String| s@) == raw_texts(n@),
{
    let mut acc: Vec<String> = Vec::new();
    proof {
        assert(acc@.map_values(|s: String| s@) =~= Seq::<Seq<char>>::empty());
    }
    collect_raw(n, &mut acc);
    proof {
        assert(acc@.map_values(|s: String| s@) =~= raw_texts(n@));
    }
    acc
}

fn collect_raw(n: &Node, acc: &mut Vec<String>)
    ensures
        final(acc)@.map_values(|s: String| s@) =~= old(acc)@.map_values(|s: String| s@)
            + raw_texts(n@),
    decreases *n,
{
    match n {
        Node::Atom(_) => {
            proof {
                assert(acc@.map_values(|s: String| s@) =~= acc@.map_values(|s: String| s@)
                    + raw_texts(n@));
            }
        },
        Node::StringLit(_) => {
            proof {
                assert(acc@.map_values(|s: String| s@) =~= acc@.map_values(|s: String| s@)
                    + raw_texts(n@));
            }
        },
        Node::Call { callee, args, .. } => {
            collect_raw(callee, acc);
            collect_raw_list(args, acc);
            proof {
                assert(acc@.map_values(|s: String| s@) =~= old(acc)@.map_values(|s: String| s@)
                    + raw_texts(n@));
            }
        },
        Node::Block { stmts, .. } => {
            collect_raw_list(stmts, acc);
            proof {
                assert(acc@.map_values(|s: String| s@) =~= old(acc)@.map_values(|s: String| s@)
                    + raw_texts(n@));
            }
        },
        Node::EmptyModuleBody { .. } => {
            proof {
                assert(acc@.map_values(|s: String| s@) =~= acc@.map_values(|s: String| s@)
                    + raw_texts(n@));
            }
        },
        Node::Raw { text } => {
            acc.push(text.clone());
            proof {
                assert(acc@.map_values(|s: String| s@) =~= old(acc)@.map_values(|s: String| s@)
                    + raw_texts(n@));
            }
        },
    }
}

fn collect_raw_list(l: &NodeList, acc: &mut Vec<String>)
    ensures
        final(acc)@.map_values(|s: String| s@) =~= old(acc)@.map_values(|s: String| s@)
            + raw_texts_list(l@),
    decreases *l,
{
    match l {
        NodeList::Nil => {
            proof {
                assert(acc@.map_values(|s: String| s@) =~= acc@.map_values(|s: String| s@)
                    + raw_texts_list(l@));
            }
        },
        NodeList::Cons(n, rest) => {
            collect_raw(n, acc);
            collect_raw_list(rest, acc);
            proof {
                assert(acc@.map_values(|s: String| s@) =~= old(acc)@.map_values(|s: String| s@)
                    + raw_texts_list(l@));
            }
        },
    }
}

} // verus!
