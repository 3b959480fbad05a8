//! The syntax tree that the formatter consumes.
//!
//! The tree is already parsed and validated upstream; the formatter reads it
//! and never mutates it. A token carries its literal source text and the
//! trivia (line breaks and comments) attached to its leading and trailing
//! edges; a node that the parser could not make sense of carries its verbatim
//! source span, which the formatter reproduces unchanged.

use vstd::prelude::*;

verus! {

/// One piece of trivia attached to a token's edge.
#[derive(Debug)]
pub enum TriviaPiece {
    /// A run of `n` consecutive line breaks.
    Lines(u32),
    /// A comment, with its full source text, delimiters included.
    Comment(String),
}

/// Specification mirror of [`TriviaPiece`].
pub enum TriviaV {
    Lines(u32),
    Comment(Seq<char>),
}

impl View for TriviaPiece {
    type V = TriviaV;

    open spec fn view(&self) -> TriviaV {
        match *self {
            TriviaPiece::Lines(n) => TriviaV::Lines(n),
            TriviaPiece::Comment(s) => TriviaV::Comment(s@),
        }
    }
}

/// The view of a whole trivia run.
pub open spec fn trivia_run_view(ps: Seq<TriviaPiece>) -> Seq<TriviaV> {
    ps.map_values(|p: TriviaPiece| p@)
}

/// A lexical unit of the source: its exact text plus the trivia on its
/// leading and trailing edges. Trailing trivia holds what follows the token
/// on its own source line.
#[derive(Debug)]
pub struct Token {
    pub text: String,
    pub leading: Vec<TriviaPiece>,
    pub trailing: Vec<TriviaPiece>,
}

/// Specification mirror of [`Token`].
pub struct TokenV {
    pub text: Seq<char>,
    pub leading: Seq<TriviaV>,
    pub trailing: Seq<TriviaV>,
}

impl View for Token {
    type V = TokenV;

    open spec fn view(&self) -> TokenV {
        TokenV {
            text: self.text@,
            leading: trivia_run_view(self.leading@),
            trailing: trivia_run_view(self.trailing@),
        }
    }
}

impl Token {
    /// A token with no trivia at all.
    pub fn bare(text: String) -> (t: Token)
        ensures
            t@.text == text@,
            t@.leading == Seq::<TriviaV>::empty(),
            t@.trailing == Seq::<TriviaV>::empty(),
    {
        let t = Token { text, leading: Vec::new(), trailing: Vec::new() };
        proof {
            assert(t@.leading =~= Seq::<TriviaV>::empty());
            assert(t@.trailing =~= Seq::<TriviaV>::empty());
        }
        t
    }
}

/// One node of the syntax tree.
#[derive(Debug)]
pub enum Node {
    /// An atomic construct carried by a single token: an identifier, a
    /// keyword, a number.
    Atom(Token),
    /// A string literal; its quotes may be normalised by the formatter.
    StringLit(Token),
    /// A call expression with its argument list.
    Call { callee: Box<Node>, lparen: Token, args: NodeList, rparen: Token },
    /// A braced block of statements.
    Block { lbrace: Token, stmts: NodeList, rbrace: Token },
    /// An external module declaration body that consists of a lone
    /// semicolon.
    EmptyModuleBody { semicolon: Token },
    /// A region the parser marked as erroneous or that no formatting rule
    /// covers: its verbatim source text, reproduced unchanged.
    Raw { text: String },
}

/// An ordered list of sibling nodes.
#[derive(Debug)]
pub enum NodeList {
    Nil,
    Cons(Box<Node>, Box<NodeList>),
}

/// Specification mirror of [`Node`].
pub enum NodeV {
    Atom(TokenV),
    StringLit(TokenV),
    Call { callee: Box<NodeV>, lparen: TokenV, args: NodeListV, rparen: TokenV },
    Block { lbrace: TokenV, stmts: NodeListV, rbrace: TokenV },
    EmptyModuleBody { semicolon: TokenV },
    Raw { text: Seq<char> },
}

/// Specification mirror of [`NodeList`].
pub enum NodeListV {
    Nil,
    Cons(Box<NodeV>, Box<NodeListV>),
}

pub open spec fn node_view(n: Node) -> NodeV
    decreases n,
{
    match n {
        Node::Atom(t) => NodeV::Atom(t@),
        Node::StringLit(t) => NodeV::StringLit(t@),
        Node::Call { callee, lparen, args, rparen } => NodeV::Call {
            callee: Box::new(node_view(*callee)),
            lparen: lparen@,
            args: node_list_view(args),
            rparen: rparen@,
        },
        Node::Block { lbrace, stmts, rbrace } => NodeV::Block {
            lbrace: lbrace@,
            stmts: node_list_view(stmts),
            rbrace: rbrace@,
        },
        Node::EmptyModuleBody { semicolon } => NodeV::EmptyModuleBody { semicolon: semicolon@ },
        Node::Raw { text } => NodeV::Raw { text: text@ },
    }
}

pub open spec fn node_list_view(l: NodeList) -> NodeListV
    decreases l,
{
    match l {
        NodeList::Nil => NodeListV::Nil,
        NodeList::Cons(n, rest) => NodeListV::Cons(
            Box::new(node_view(*n)),
            Box::new(node_list_view(*rest)),
        ),
    }
}

impl View for Node {
    type V = NodeV;

    open spec fn view(&self) -> NodeV {
        node_view(*self)
    }
}

impl View for NodeList {
    type V = NodeListV;

    open spec fn view(&self) -> NodeListV {
        node_list_view(*self)
    }
}

} // verus!
