//! A line-oriented driver over the three engine stages, for a host that
//! feeds sources one at a time and wants a flag per failure class and the
//! accumulated output.

use vstd::prelude::*;
use crate::ast::AstS;
use crate::interpreter::spec_run_program;
use crate::lexer::spec_lex;
use crate::parser::spec_parse_program;
use crate::common::push_bytes;

verus! {

use vstd::string::StringSliceAdditionalSpecFns;

/// The step budget the driver hands each run.
pub const DRIVER_BUDGET: usize = 1000000;

/// Host-side shared state; nothing is needed today.
pub struct Data {}

/// A handle carrying the step budget a run is given.
pub struct Interpreter {
    pub budget: usize,
}

/// The driver: runs sources through the stages, records whether any stage
/// failed, and accumulates the programs' print output.
pub struct Lox {
    pub had_err: bool,
    pub had_runtime_err: bool,
    pub transcript: Vec<u8>,
}

impl Lox {
    /// A fresh driver: no failures seen, an empty transcript.
    pub fn new() -> (r: Lox)
        ensures
            !r.had_err,
            !r.had_runtime_err,
            r.transcript@ == Seq::<u8>::empty(),
    {
        Lox { had_err: false, had_runtime_err: false, transcript: Vec::new() }
    }

    /// The interpreter handle this driver runs programs with.
    pub fn interpreter(&self) -> (r: Interpreter)
        ensures
            r.budget == DRIVER_BUDGET,
    {
        Interpreter { budget: DRIVER_BUDGET }
    }

    /// Run one source line through lexing, parsing and interpretation.
    ///
    /// A lexical or syntactic failure sets `had_err` and stops the line; a
    /// clean parse runs, appends the program's output to the transcript, and
    /// sets `had_runtime_err` when a runtime error stopped it.
    pub fn run(&mut self, line: String)
        ensures
            ({
                let lx = spec_lex(vstd::utf8::encode_utf8(line@));
                let pr = spec_parse_program(
                    lx.toks,
                    0,
                    AstS {
                        nodes: Seq::empty(),
                        kids: Seq::empty(),
                        params: Seq::empty(),
                        stmts: Seq::empty(),
                    },
                );
                &&& final(self).had_err == (old(self).had_err || lx.diags.len() > 0 || (
                lx.diags.len() == 0 && pr.diags.len() > 0))
                &&& ((lx.diags.len() > 0 || pr.diags.len() > 0) ==> final(self).transcript@
                    == old(self).transcript@ && final(self).had_runtime_err == old(
                    self,
                ).had_runtime_err)
                &&& ((lx.diags.len() == 0 && pr.diags.len() == 0) ==> ({
                    let rr = spec_run_program(
                        AstS { stmts: pr.stmts, ..pr.ast },
                        lx.syms,
                        DRIVER_BUDGET as nat,
                    );
                    &&& final(self).transcript@ == old(self).transcript@ + rr.env.stdout
                    &&& final(self).had_runtime_err == (old(self).had_runtime_err || rr.err
                        is Some)
                }))
            }),
    {
        let (lexed, ldiags) = crate::lex(line.as_str().as_bytes());
        if ldiags.len() > 0 {
            self.had_err = true;
            return;
        }
        let l = match lexed {
            Some(l) => l,
            None => {
                self.had_err = true;
                return;
            },
        };
        let (tree, pdiags) = crate::parse(&l);
        if pdiags.len() > 0 {
            self.had_err = true;
            return;
        }
        match tree {
            Some(ast) => {
                let run = crate::interp(&ast, DRIVER_BUDGET);
                push_bytes(&mut self.transcript, run.output.as_slice());
                match run.error {
                    Some(_) => {
                        self.had_runtime_err = true;
                    },
                    None => {},
                }
            },
            None => {
                self.had_err = true;
            },
        }
    }

    /// Record a host-reported failure: append `[line N] Error: message` to
    /// the transcript and set the failure flag.
    pub fn error(&mut self, line: usize, message: String)
        ensures
            final(self).had_err,
            final(self).had_runtime_err == old(self).had_runtime_err,
            final(self).transcript@ == old(self).transcript@ + "[line ".spec_bytes()
                + crate::text::spec_u64_digits(line as nat) + "] Error: ".spec_bytes()
                + vstd::utf8::encode_utf8(message@),
    {
        push_bytes(&mut self.transcript, "[line ".as_bytes());
        let d = crate::text::u64_digits(line as u64);
        push_bytes(&mut self.transcript, d.as_slice());
        push_bytes(&mut self.transcript, "] Error: ".as_bytes());
        push_bytes(&mut self.transcript, message.as_str().as_bytes());
        self.had_err = true;
    }
}

} // verus!
