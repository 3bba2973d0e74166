//! The syntax tree: a closed set of span-tagged expression/statement nodes.
//!
//! Nodes live in an arena ([`Ast::nodes`]); a node refers to its children by
//! index, and child lists are slices of the shared [`Ast::kids`] table, so
//! every node is a plain copyable value. Each variant keeps the spans of its
//! syntactic pieces so diagnostics can always point back into the source.

use vstd::prelude::*;
use crate::common::VeaErr;
use crate::span::{RawSpan, Span};

verus! {

/// A literal as it appears in source: the atoms of the value model.
#[derive(Clone, Copy, PartialEq, Eq, Debug, Structural)]
pub enum AtomLit {
    Bool(bool),
    Integer(i64),
    /// A string literal; the payload indexes the symbol table.
    Str(usize),
    /// The none sentinel, written `_`.
    Nil,
}

/// One expression or statement node.
///
/// `usize` children are node indices into [`Ast::nodes`]; `*_lo`/`*_len`
/// pairs delimit child lists inside [`Ast::kids`] or parameter lists inside
/// [`Ast::params`]; identifiers are symbol-table indices tagged with their
/// source span.
#[derive(Clone, Copy, Debug)]
pub enum Expr {
    /// A variable read.
    Access { ident: Span<usize> },

    Print {
        print_token: RawSpan,
        left_paren: RawSpan,
        right_paren: RawSpan,
        semi_token: RawSpan,
        value: usize,
    },

    Return { return_token: RawSpan, semi_token: RawSpan, value: usize },

    Literal { value: AtomLit },

    Group { left_paren: RawSpan, expr: usize, right_paren: RawSpan },

    Block { left_brace: RawSpan, exprs_lo: usize, exprs_len: usize, right_brace: RawSpan },

    If {
        if_token: RawSpan,
        condition: usize,
        then: usize,
        else_token: Option<RawSpan>,
        other: Option<usize>,
    },

    While { while_token: RawSpan, condition: usize, then: usize },

    FnDecl {
        fn_token: RawSpan,
        name: Span<usize>,
        left_paren: RawSpan,
        args_lo: usize,
        args_len: usize,
        right_paren: RawSpan,
        block: usize,
    },

    FnCall {
        access: usize,
        left_paren: RawSpan,
        args_lo: usize,
        args_len: usize,
        right_paren: RawSpan,
    },

    Let {
        let_token: RawSpan,
        ident: Span<usize>,
        eq_token: RawSpan,
        expr: usize,
        semi_token: RawSpan,
    },

    Assign { ident: Span<usize>, eq_token: RawSpan, expr: usize, semi_token: RawSpan },

    AddAssign { ident: Span<usize>, plus_eq_token: RawSpan, expr: usize, semi_token: RawSpan },

    SubAssign { ident: Span<usize>, minus_eq_token: RawSpan, expr: usize, semi_token: RawSpan },

    MulAssign { ident: Span<usize>, star_eq_token: RawSpan, expr: usize, semi_token: RawSpan },

    DivAssign { ident: Span<usize>, slash_eq_token: RawSpan, expr: usize, semi_token: RawSpan },

    RemAssign { ident: Span<usize>, percent_eq_token: RawSpan, expr: usize, semi_token: RawSpan },

    ShlAssign { ident: Span<usize>, shl_eq_token: RawSpan, expr: usize, semi_token: RawSpan },

    ShrAssign { ident: Span<usize>, shr_eq_token: RawSpan, expr: usize, semi_token: RawSpan },

    AndAssign { ident: Span<usize>, and_eq_token: RawSpan, expr: usize, semi_token: RawSpan },

    OrAssign { ident: Span<usize>, pipe_eq_token: RawSpan, expr: usize, semi_token: RawSpan },

    XorAssign { ident: Span<usize>, caret_eq_token: RawSpan, expr: usize, semi_token: RawSpan },

    Not { bang_token: RawSpan, expr: usize },

    Neg { minus_token: RawSpan, expr: usize },

    Add { lhs: usize, plus_token: RawSpan, rhs: usize },

    Sub { lhs: usize, minus_token: RawSpan, rhs: usize },

    Mul { lhs: usize, star_token: RawSpan, rhs: usize },

    Div { lhs: usize, slash_token: RawSpan, rhs: usize },

    Rem { lhs: usize, percent_token: RawSpan, rhs: usize },

    Shl { lhs: usize, shl_token: RawSpan, rhs: usize },

    Shr { lhs: usize, shr_token: RawSpan, rhs: usize },

    And { lhs: usize, and_token: RawSpan, rhs: usize },

    Or { lhs: usize, pipe_token: RawSpan, rhs: usize },

    Xor { lhs: usize, caret_token: RawSpan, rhs: usize },

    Eq { lhs: usize, eqeq_token: RawSpan, rhs: usize },

    Ne { lhs: usize, ne_token: RawSpan, rhs: usize },

    Gt { lhs: usize, gt_token: RawSpan, rhs: usize },

    Ge { lhs: usize, ge_token: RawSpan, rhs: usize },

    Lt { lhs: usize, lt_token: RawSpan, rhs: usize },

    Le { lhs: usize, le_token: RawSpan, rhs: usize },

    /// A struct (object) literal; its entries are `Let` and `FnDecl` nodes.
    Object {
        struct_token: RawSpan,
        left_brace: RawSpan,
        exprs_lo: usize,
        exprs_len: usize,
        right_brace: RawSpan,
    },

    /// A set literal; duplicate elements are rejected when it is evaluated.
    SetLit {
        set_token: RawSpan,
        left_brace: RawSpan,
        exprs_lo: usize,
        exprs_len: usize,
        right_brace: RawSpan,
    },

    /// Member access: `parent[child]`, indexing an object by a string key.
    Chain { parent: usize, child: usize },

    /// A placeholder for a lexical error that reached the tree.
    Error(VeaErr),
}

/// The mathematical image of an [`Ast`], minus the symbol table.
pub struct AstS {
    pub nodes: Seq<Span<Expr>>,
    pub kids: Seq<usize>,
    pub params: Seq<Span<usize>>,
    pub stmts: Seq<usize>,
}

/// A parsed program: the node arena, the shared child-list and parameter
/// tables, the indices of the top-level statements, and the symbol table the
/// identifiers of the tree point into.
pub struct Ast {
    pub nodes: Vec<Span<Expr>>,
    pub kids: Vec<usize>,
    pub params: Vec<Span<usize>>,
    pub stmts: Vec<usize>,
    pub syms: Vec<Vec<u8>>,
}

impl Ast {
    /// The mathematical image of the arena.
    pub open spec fn view_s(&self) -> AstS {
        AstS { nodes: self.nodes@, kids: self.kids@, params: self.params@, stmts: self.stmts@ }
    }
}

} // verus!
