//! A small expression-oriented scripting language engine: a tokenizer, a
//! recovering recursive-descent parser, and a tree-walking interpreter over a
//! span-tagged syntax tree, together with a few standalone math utilities.

pub mod ast;
pub mod common;
pub mod display;
pub mod env;
pub mod interpreter;
pub mod lexer;
pub mod literal;
pub mod lox;
pub mod matrix;
pub mod parser;
pub mod rational;
pub mod span;
pub mod text;
pub mod token;
pub mod tools;
pub mod vecset;

use vstd::prelude::*;
use crate::ast::Ast;
use crate::lexer::{LexOut, spec_lex};
use crate::parser::spec_parse_program;
use crate::interpreter::{RunOut, spec_run_program};
use crate::span::Diag;
use crate::token::syms_view;

verus! {

/// Lex a whole source text: the span-tagged token sequence (with its symbol
/// table) and the lexical diagnostics, which are empty exactly when no error
/// token was embedded.
pub fn lex(src: &[u8]) -> (r: (Option<LexOut>, Vec<Diag>))
    ensures
        ({
            let l = spec_lex(src@);
            &&& (match r.0 {
                Some(o) => o.toks@ == l.toks && syms_view(o.syms@) == l.syms,
                None => false,
            })
            &&& r.1.deep_view() == l.diags
        }),
{
    let (o, d) = crate::lexer::lexer(src);
    (Some(o), d)
}

/// Parse a lexed source into the syntax tree.
///
/// The tree is produced exactly when every statement parsed; otherwise the
/// diagnostics carry one entry per malformed statement, so a single pass
/// reports all independent errors.
pub fn parse(l: &LexOut) -> (r: (Option<Ast>, Vec<Diag>))
    ensures
        ({
            let pr = spec_parse_program(
                l.toks@,
                0,
                crate::ast::AstS {
                    nodes: Seq::empty(),
                    kids: Seq::empty(),
                    params: Seq::empty(),
                    stmts: Seq::empty(),
                },
            );
            &&& r.1.deep_view() == pr.diags
            &&& (match r.0 {
                Some(ast) => {
                    &&& pr.diags.len() == 0
                    &&& ast.view_s() == (crate::ast::AstS { stmts: pr.stmts, ..pr.ast })
                    &&& syms_view(ast.syms@) == syms_view(l.syms@)
                },
                None => pr.diags.len() > 0,
            })
        }),
{
    let syms = crate::token::copy_syms(&l.syms);
    crate::parser::parser(&l.toks, syms)
}

/// Interpret a parsed program from a fresh environment under a step budget.
///
/// The result is the program's accumulated print output together with the
/// first runtime error, span-anchored, if one stopped it.
pub fn interp(ast: &Ast, budget: usize) -> (r: RunOut)
    ensures
        ({
            let rr = spec_run_program(ast.view_s(), syms_view(ast.syms@), budget as nat);
            &&& r.output@ == rr.env.stdout
            &&& (match r.error {
                Some(d) => rr.err == Some(d@),
                None => rr.err is None,
            })
        }),
{
    crate::interpreter::run_program(ast, budget)
}

} // verus!
