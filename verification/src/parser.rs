//! The parser: a recovering recursive-descent pass from tokens to the syntax
//! tree.
//!
//! The grammar is statement-oriented at the top level (`let`, `fn`, `if`,
//! `while`, `return`, `print`, assignment, a block, or a bare expression).
//! The expression sub-grammar applies, per nesting level, exactly one
//! operator: function call, struct literal, set literal, a single binary
//! application between atoms, a unary operator, or an atom; `a + b + c` is
//! deliberately not parseable without parentheses. Recovery is local: a
//! malformed statement produces one diagnostic, the pass skips past the next
//! `;` and goes on, so one run reports every independent error.

use vstd::prelude::*;
use crate::ast::{Ast, AstS, AtomLit, Expr};
use crate::span::{RawSpan, Span, Diag, DiagV};
use crate::token::Token;

verus! {

use vstd::string::StringSliceAdditionalSpecFns;

/// The token at `pos`, if any.
pub open spec fn tok_at(toks: Seq<Span<Token>>, pos: int) -> Option<Token> {
    if 0 <= pos < toks.len() {
        Option::Some(toks[pos].0)
    } else {
        Option::None
    }
}

/// Whether `t` begins an assignment statement when it follows an identifier.
pub open spec fn is_assign_op(t: Token) -> bool {
    ||| t == Token::Eq
    ||| t == Token::PlusEq
    ||| t == Token::MinusEq
    ||| t == Token::StarEq
    ||| t == Token::SlashEq
    ||| t == Token::PercentEq
    ||| t == Token::ShlEq
    ||| t == Token::ShrEq
    ||| t == Token::AndEq
    ||| t == Token::PipeEq
    ||| t == Token::CaretEq
}

/// The assignment node for `ident op expr ;`, for each compound operator.
pub open spec fn assign_expr(
    t: Token,
    ident: Span<usize>,
    op: RawSpan,
    expr: usize,
    semi: RawSpan,
) -> Expr {
    match t {
        Token::PlusEq => Expr::AddAssign { ident, plus_eq_token: op, expr, semi_token: semi },
        Token::MinusEq => Expr::SubAssign { ident, minus_eq_token: op, expr, semi_token: semi },
        Token::StarEq => Expr::MulAssign { ident, star_eq_token: op, expr, semi_token: semi },
        Token::SlashEq => Expr::DivAssign { ident, slash_eq_token: op, expr, semi_token: semi },
        Token::PercentEq => Expr::RemAssign { ident, percent_eq_token: op, expr, semi_token: semi },
        Token::ShlEq => Expr::ShlAssign { ident, shl_eq_token: op, expr, semi_token: semi },
        Token::ShrEq => Expr::ShrAssign { ident, shr_eq_token: op, expr, semi_token: semi },
        Token::AndEq => Expr::AndAssign { ident, and_eq_token: op, expr, semi_token: semi },
        Token::PipeEq => Expr::OrAssign { ident, pipe_eq_token: op, expr, semi_token: semi },
        Token::CaretEq => Expr::XorAssign { ident, caret_eq_token: op, expr, semi_token: semi },
        _ => Expr::Assign { ident, eq_token: op, expr, semi_token: semi },
    }
}

/// Whether `t` is one of the binary operators.
pub open spec fn is_binop(t: Token) -> bool {
    ||| t == Token::Plus
    ||| t == Token::Minus
    ||| t == Token::Star
    ||| t == Token::Slash
    ||| t == Token::Percent
    ||| t == Token::Shl
    ||| t == Token::Shr
    ||| t == Token::And
    ||| t == Token::Pipe
    ||| t == Token::Caret
    ||| t == Token::EqEq
    ||| t == Token::Ne
    ||| t == Token::Gt
    ||| t == Token::Ge
    ||| t == Token::Lt
    ||| t == Token::Le
}

/// The binary node for `lhs t rhs`.
pub open spec fn binop_expr(t: Token, lhs: usize, op: RawSpan, rhs: usize) -> Expr {
    match t {
        Token::Plus => Expr::Add { lhs, plus_token: op, rhs },
        Token::Minus => Expr::Sub { lhs, minus_token: op, rhs },
        Token::Star => Expr::Mul { lhs, star_token: op, rhs },
        Token::Slash => Expr::Div { lhs, slash_token: op, rhs },
        Token::Percent => Expr::Rem { lhs, percent_token: op, rhs },
        Token::Shl => Expr::Shl { lhs, shl_token: op, rhs },
        Token::Shr => Expr::Shr { lhs, shr_token: op, rhs },
        Token::And => Expr::And { lhs, and_token: op, rhs },
        Token::Pipe => Expr::Or { lhs, pipe_token: op, rhs },
        Token::Caret => Expr::Xor { lhs, caret_token: op, rhs },
        Token::EqEq => Expr::Eq { lhs, eqeq_token: op, rhs },
        Token::Ne => Expr::Ne { lhs, ne_token: op, rhs },
        Token::Gt => Expr::Gt { lhs, gt_token: op, rhs },
        Token::Ge => Expr::Ge { lhs, ge_token: op, rhs },
        Token::Lt => Expr::Lt { lhs, lt_token: op, rhs },
        _ => Expr::Le { lhs, le_token: op, rhs },
    }
}

/// The span of the token at `pos`, or a zero span out of range.
pub open spec fn span_at(toks: Seq<Span<Token>>, pos: int) -> RawSpan {
    if 0 <= pos < toks.len() {
        toks[pos].1
    } else {
        RawSpan { start: 0, end: 0 }
    }
}

/// The byte span covered by tokens `lo..hi`.
pub open spec fn span_between(toks: Seq<Span<Token>>, lo: int, hi: int) -> RawSpan
    recommends
        0 <= lo < hi <= toks.len(),
{
    RawSpan { start: span_at(toks, lo).start, end: span_at(toks, hi - 1).end }
}

/// The result of one parsing production: whether it succeeded, the node it
/// produced, the position after it (on failure: the offending position), and
/// the arena as it stands.
pub struct PRes {
    pub ok: bool,
    pub node: usize,
    pub pos: int,
    pub ast: AstS,
}

/// The result of a list production.
pub struct PList {
    pub ok: bool,
    pub ids: Seq<usize>,
    pub pos: int,
    pub ast: AstS,
}

/// The result of a parameter-list production.
pub struct PParams {
    pub ok: bool,
    pub ids: Seq<Span<usize>>,
    pub pos: int,
}

/// A failed production at `pos`.
pub open spec fn pfail(pos: int, ast: AstS) -> PRes {
    PRes { ok: false, node: 0, pos, ast }
}

/// A successful production: allocate the node and stand at `pos`.
pub open spec fn pok(ast: AstS, e: Expr, sp: RawSpan, pos: int) -> PRes {
    PRes {
        ok: true,
        node: ast.nodes.len() as usize,
        pos,
        ast: AstS { nodes: ast.nodes.push(Span(e, sp)), ..ast },
    }
}

/// Append a child list to the shared table, returning its start.
pub open spec fn push_kids(ast: AstS, ids: Seq<usize>) -> AstS {
    AstS { kids: ast.kids + ids, ..ast }
}

/// One statement.
pub open spec fn spec_parse_stmt(toks: Seq<Span<Token>>, pos: int, ast: AstS, fuel: nat) -> PRes
    decreases fuel,
{
    if fuel == 0 {
        pfail(pos, ast)
    } else {
        match tok_at(toks, pos) {
            Option::None => pfail(pos, ast),
            Option::Some(t) => {
                if t == Token::LeftBrace {
                    spec_parse_block(toks, pos, ast, (fuel - 1) as nat)
                } else if t == Token::Fn {
                    spec_parse_fn(toks, pos, ast, (fuel - 1) as nat)
                } else if t == Token::Return {
                    let r = spec_parse_expr(toks, pos + 1, ast, (fuel - 1) as nat);
                    if !r.ok {
                        r
                    } else if tok_at(toks, r.pos) == Option::Some(Token::Semi) {
                        pok(
                            r.ast,
                            Expr::Return {
                                return_token: span_at(toks, pos),
                                semi_token: span_at(toks, r.pos),
                                value: r.node,
                            },
                            span_between(toks, pos, r.pos + 1),
                            r.pos + 1,
                        )
                    } else {
                        pfail(r.pos, r.ast)
                    }
                } else if t == Token::Let {
                    spec_parse_let(toks, pos, ast, (fuel - 1) as nat)
                } else if t == Token::If {
                    spec_parse_if(toks, pos, ast, (fuel - 1) as nat)
                } else if t == Token::While {
                    let c = spec_parse_paren_cond(toks, pos + 1, ast, (fuel - 1) as nat);
                    if !c.ok {
                        c
                    } else {
                        let b = spec_parse_block(toks, c.pos, c.ast, (fuel - 1) as nat);
                        if !b.ok {
                            b
                        } else {
                            pok(
                                b.ast,
                                Expr::While {
                                    while_token: span_at(toks, pos),
                                    condition: c.node,
                                    then: b.node,
                                },
                                span_between(toks, pos, b.pos),
                                b.pos,
                            )
                        }
                    }
                } else if t == Token::Print {
                    let c = spec_parse_paren_cond(toks, pos + 1, ast, (fuel - 1) as nat);
                    if !c.ok {
                        c
                    } else if tok_at(toks, c.pos) == Option::Some(Token::Semi) {
                        pok(
                            c.ast,
                            Expr::Print {
                                print_token: span_at(toks, pos),
                                left_paren: span_at(toks, pos + 1),
                                right_paren: span_at(toks, c.pos - 1),
                                semi_token: span_at(toks, c.pos),
                                value: c.node,
                            },
                            span_between(toks, pos, c.pos + 1),
                            c.pos + 1,
                        )
                    } else {
                        pfail(c.pos, c.ast)
                    }
                } else if (t matches Token::Ident(_)) && (match tok_at(toks, pos + 1) {
                    Option::Some(t2) => is_assign_op(t2),
                    Option::None => false,
                }) {
                    spec_parse_assign(toks, pos, ast, (fuel - 1) as nat)
                } else {
                    let r = spec_parse_expr(toks, pos, ast, (fuel - 1) as nat);
                    if !r.ok {
                        r
                    } else if tok_at(toks, r.pos) == Option::Some(Token::Semi) {
                        PRes { pos: r.pos + 1, ..r }
                    } else {
                        pfail(r.pos, r.ast)
                    }
                }
            },
        }
    }
}

/// A parenthesised condition or operand: `( expr )`.
pub open spec fn spec_parse_paren_cond(
    toks: Seq<Span<Token>>,
    pos: int,
    ast: AstS,
    fuel: nat,
) -> PRes
    decreases fuel,
{
    if fuel == 0 {
        pfail(pos, ast)
    } else if tok_at(toks, pos) != Option::Some(Token::LeftParen) {
        pfail(pos, ast)
    } else {
        let r = spec_parse_expr(toks, pos + 1, ast, (fuel - 1) as nat);
        if !r.ok {
            r
        } else if tok_at(toks, r.pos) == Option::Some(Token::RightParen) {
            PRes { pos: r.pos + 1, ..r }
        } else {
            pfail(r.pos, r.ast)
        }
    }
}

/// A block statement: `{ stmt* }`.
pub open spec fn spec_parse_block(toks: Seq<Span<Token>>, pos: int, ast: AstS, fuel: nat) -> PRes
    decreases fuel,
{
    if fuel == 0 {
        pfail(pos, ast)
    } else if tok_at(toks, pos) != Option::Some(Token::LeftBrace) {
        pfail(pos, ast)
    } else {
        let l = spec_parse_stmt_list(toks, pos + 1, ast, (fuel - 1) as nat);
        if !l.ok {
            pfail(l.pos, l.ast)
        } else if tok_at(toks, l.pos) == Option::Some(Token::RightBrace) {
            let ast1 = push_kids(l.ast, l.ids);
            pok(
                ast1,
                Expr::Block {
                    left_brace: span_at(toks, pos),
                    exprs_lo: l.ast.kids.len() as usize,
                    exprs_len: l.ids.len() as usize,
                    right_brace: span_at(toks, l.pos),
                },
                span_between(toks, pos, l.pos + 1),
                l.pos + 1,
            )
        } else {
            pfail(l.pos, l.ast)
        }
    }
}

/// The statements of a block, up to (not consuming) the closing brace.
pub open spec fn spec_parse_stmt_list(
    toks: Seq<Span<Token>>,
    pos: int,
    ast: AstS,
    fuel: nat,
) -> PList
    decreases fuel,
{
    if fuel == 0 {
        PList { ok: false, ids: Seq::empty(), pos, ast }
    } else if tok_at(toks, pos) == Option::Some(Token::RightBrace) {
        PList { ok: true, ids: Seq::empty(), pos, ast }
    } else if tok_at(toks, pos) is None {
        PList { ok: false, ids: Seq::empty(), pos, ast }
    } else {
        let r = spec_parse_stmt(toks, pos, ast, (fuel - 1) as nat);
        if !r.ok {
            PList { ok: false, ids: Seq::empty(), pos: r.pos, ast: r.ast }
        } else {
            let rest = spec_parse_stmt_list(toks, r.pos, r.ast, (fuel - 1) as nat);
            if !rest.ok {
                rest
            } else {
                PList { ids: seq![r.node] + rest.ids, ..rest }
            }
        }
    }
}

/// A function declaration: `fn name ( params ) block`.
pub open spec fn spec_parse_fn(toks: Seq<Span<Token>>, pos: int, ast: AstS, fuel: nat) -> PRes
    decreases fuel,
{
    if fuel == 0 {
        pfail(pos, ast)
    } else {
        let name = tok_at(toks, pos + 1);
        if !(name matches Option::Some(Token::Ident(_))) {
            pfail(if pos + 1 > toks.len() { toks.len() as int } else { pos + 1 }, ast)
        } else if tok_at(toks, pos + 2) != Option::Some(Token::LeftParen) {
            pfail(pos + 2, ast)
        } else {
            let p = spec_parse_params(toks, pos + 3, (fuel - 1) as nat);
            if !p.ok {
                pfail(p.pos, ast)
            } else if tok_at(toks, p.pos) != Option::Some(Token::RightParen) {
                pfail(p.pos, ast)
            } else {
                let b = spec_parse_block(toks, p.pos + 1, ast, (fuel - 1) as nat);
                if !b.ok {
                    b
                } else {
                    let sym = match name {
                        Option::Some(Token::Ident(s)) => s,
                        _ => 0,
                    };
                    let ast1 = AstS { params: b.ast.params + p.ids, ..b.ast };
                    pok(
                        ast1,
                        Expr::FnDecl {
                            fn_token: span_at(toks, pos),
                            name: Span(sym, span_at(toks, pos + 1)),
                            left_paren: span_at(toks, pos + 2),
                            args_lo: b.ast.params.len() as usize,
                            args_len: p.ids.len() as usize,
                            right_paren: span_at(toks, p.pos),
                            block: b.node,
                        },
                        span_between(toks, pos, b.pos),
                        b.pos,
                    )
                }
            }
        }
    }
}

/// A parameter list: identifiers separated by commas, no trailing comma.
pub open spec fn spec_parse_params(toks: Seq<Span<Token>>, pos: int, fuel: nat) -> PParams
    decreases fuel,
{
    if fuel == 0 {
        PParams { ok: false, ids: Seq::empty(), pos }
    } else if tok_at(toks, pos) == Option::Some(Token::RightParen) {
        PParams { ok: true, ids: Seq::empty(), pos }
    } else {
        match tok_at(toks, pos) {
            Option::Some(Token::Ident(s)) => {
                if tok_at(toks, pos + 1) == Option::Some(Token::Comma) {
                    let rest = spec_parse_params_more(toks, pos + 2, (fuel - 1) as nat);
                    if !rest.ok {
                        rest
                    } else {
                        PParams { ids: seq![Span(s, span_at(toks, pos))] + rest.ids, ..rest }
                    }
                } else {
                    PParams { ok: true, ids: seq![Span(s, span_at(toks, pos))], pos: pos + 1 }
                }
            },
            _ => PParams { ok: false, ids: Seq::empty(), pos },
        }
    }
}

/// The rest of a parameter list after a comma: at least one identifier.
pub open spec fn spec_parse_params_more(toks: Seq<Span<Token>>, pos: int, fuel: nat) -> PParams
    decreases fuel,
{
    if fuel == 0 {
        PParams { ok: false, ids: Seq::empty(), pos }
    } else {
        match tok_at(toks, pos) {
            Option::Some(Token::Ident(s)) => {
                if tok_at(toks, pos + 1) == Option::Some(Token::Comma) {
                    let rest = spec_parse_params_more(toks, pos + 2, (fuel - 1) as nat);
                    if !rest.ok {
                        rest
                    } else {
                        PParams { ids: seq![Span(s, span_at(toks, pos))] + rest.ids, ..rest }
                    }
                } else {
                    PParams { ok: true, ids: seq![Span(s, span_at(toks, pos))], pos: pos + 1 }
                }
            },
            _ => PParams { ok: false, ids: Seq::empty(), pos },
        }
    }
}

/// A `let` statement: `let ident = expr ;`.
pub open spec fn spec_parse_let(toks: Seq<Span<Token>>, pos: int, ast: AstS, fuel: nat) -> PRes
    decreases fuel,
{
    if fuel == 0 {
        pfail(pos, ast)
    } else {
        match tok_at(toks, pos + 1) {
            Option::Some(Token::Ident(s)) => {
                if tok_at(toks, pos + 2) != Option::Some(Token::Eq) {
                    pfail(pos + 2, ast)
                } else {
                    let r = spec_parse_expr(toks, pos + 3, ast, (fuel - 1) as nat);
                    if !r.ok {
                        r
                    } else if tok_at(toks, r.pos) == Option::Some(Token::Semi) {
                        pok(
                            r.ast,
                            Expr::Let {
                                let_token: span_at(toks, pos),
                                ident: Span(s, span_at(toks, pos + 1)),
                                eq_token: span_at(toks, pos + 2),
                                expr: r.node,
                                semi_token: span_at(toks, r.pos),
                            },
                            span_between(toks, pos, r.pos + 1),
                            r.pos + 1,
                        )
                    } else {
                        pfail(r.pos, r.ast)
                    }
                }
            },
            _ => pfail(if pos + 1 > toks.len() { toks.len() as int } else { pos + 1 }, ast),
        }
    }
}

/// An `if` statement: `if ( expr ) block`, optionally followed by `else` and
/// a block or another `if`.
pub open spec fn spec_parse_if(toks: Seq<Span<Token>>, pos: int, ast: AstS, fuel: nat) -> PRes
    decreases fuel,
{
    if fuel == 0 {
        pfail(pos, ast)
    } else if pos >= toks.len() {
        pfail(pos, ast)
    } else {
        let c = spec_parse_paren_cond(toks, pos + 1, ast, (fuel - 1) as nat);
        if !c.ok {
            c
        } else {
            let b = spec_parse_block(toks, c.pos, c.ast, (fuel - 1) as nat);
            if !b.ok {
                b
            } else if tok_at(toks, b.pos) == Option::Some(Token::Else) {
                let o = if tok_at(toks, b.pos + 1) == Option::Some(Token::If) {
                    spec_parse_if(toks, b.pos + 1, b.ast, (fuel - 1) as nat)
                } else {
                    spec_parse_block(toks, b.pos + 1, b.ast, (fuel - 1) as nat)
                };
                if !o.ok {
                    o
                } else {
                    pok(
                        o.ast,
                        Expr::If {
                            if_token: span_at(toks, pos),
                            condition: c.node,
                            then: b.node,
                            else_token: Option::Some(span_at(toks, b.pos)),
                            other: Option::Some(o.node),
                        },
                        span_between(toks, pos, o.pos),
                        o.pos,
                    )
                }
            } else {
                pok(
                    b.ast,
                    Expr::If {
                        if_token: span_at(toks, pos),
                        condition: c.node,
                        then: b.node,
                        else_token: Option::None,
                        other: Option::None,
                    },
                    span_between(toks, pos, b.pos),
                    b.pos,
                )
            }
        }
    }
}

/// An assignment statement: `ident op expr ;` for `=` or a compound operator.
pub open spec fn spec_parse_assign(toks: Seq<Span<Token>>, pos: int, ast: AstS, fuel: nat) -> PRes
    decreases fuel,
{
    if fuel == 0 {
        pfail(pos, ast)
    } else {
        match (tok_at(toks, pos), tok_at(toks, pos + 1)) {
            (Option::Some(Token::Ident(s)), Option::Some(op)) => {
                let r = spec_parse_expr(toks, pos + 2, ast, (fuel - 1) as nat);
                if !r.ok {
                    r
                } else if tok_at(toks, r.pos) == Option::Some(Token::Semi) {
                    pok(
                        r.ast,
                        assign_expr(
                            op,
                            Span(s, span_at(toks, pos)),
                            span_at(toks, pos + 1),
                            r.node,
                            span_at(toks, r.pos),
                        ),
                        span_between(toks, pos, r.pos + 1),
                        r.pos + 1,
                    )
                } else {
                    pfail(r.pos, r.ast)
                }
            },
            _ => pfail(pos, ast),
        }
    }
}

/// One expression: exactly one operator application at this nesting level.
pub open spec fn spec_parse_expr(toks: Seq<Span<Token>>, pos: int, ast: AstS, fuel: nat) -> PRes
    decreases fuel,
{
    if fuel == 0 {
        pfail(pos, ast)
    } else {
        match tok_at(toks, pos) {
            Option::None => pfail(pos, ast),
            Option::Some(t) => {
                if t == Token::Struct {
                    spec_parse_object(toks, pos, ast, (fuel - 1) as nat)
                } else if t == Token::SetKw {
                    spec_parse_set(toks, pos, ast, (fuel - 1) as nat)
                } else if t == Token::Bang {
                    let r = spec_parse_atom(toks, pos + 1, ast, (fuel - 1) as nat);
                    if !r.ok {
                        r
                    } else {
                        pok(
                            r.ast,
                            Expr::Not { bang_token: span_at(toks, pos), expr: r.node },
                            span_between(toks, pos, r.pos),
                            r.pos,
                        )
                    }
                } else if t == Token::Minus {
                    let r = spec_parse_atom(toks, pos + 1, ast, (fuel - 1) as nat);
                    if !r.ok {
                        r
                    } else {
                        pok(
                            r.ast,
                            Expr::Neg { minus_token: span_at(toks, pos), expr: r.node },
                            span_between(toks, pos, r.pos),
                            r.pos,
                        )
                    }
                } else if (t matches Token::Ident(_)) && tok_at(toks, pos + 1) == Option::Some(
                    Token::LeftParen,
                ) {
                    spec_parse_call(toks, pos, ast, (fuel - 1) as nat)
                } else {
                    let a = spec_parse_atom(toks, pos, ast, (fuel - 1) as nat);
                    if !a.ok {
                        a
                    } else {
                        match tok_at(toks, a.pos) {
                            Option::Some(op) => {
                                if is_binop(op) {
                                    let b = spec_parse_atom(toks, a.pos + 1, a.ast, (fuel - 1) as nat);
                                    if !b.ok {
                                        b
                                    } else {
                                        pok(
                                            b.ast,
                                            binop_expr(op, a.node, span_at(toks, a.pos), b.node),
                                            span_between(toks, pos, b.pos),
                                            b.pos,
                                        )
                                    }
                                } else {
                                    a
                                }
                            },
                            Option::None => a,
                        }
                    }
                }
            },
        }
    }
}

/// An atom: a literal, a variable, a function call, or a parenthesised
/// expression, optionally followed by one member access `[ expr ]`.
pub open spec fn spec_parse_atom(toks: Seq<Span<Token>>, pos: int, ast: AstS, fuel: nat) -> PRes
    decreases fuel,
{
    if fuel == 0 {
        pfail(pos, ast)
    } else {
        let prim = match tok_at(toks, pos) {
            Option::Some(Token::Number(n)) => pok(
                ast,
                Expr::Literal { value: AtomLit::Integer(n) },
                span_at(toks, pos),
                pos + 1,
            ),
            Option::Some(Token::Str(s)) => pok(
                ast,
                Expr::Literal { value: AtomLit::Str(s) },
                span_at(toks, pos),
                pos + 1,
            ),
            Option::Some(Token::True) => pok(
                ast,
                Expr::Literal { value: AtomLit::Bool(true) },
                span_at(toks, pos),
                pos + 1,
            ),
            Option::Some(Token::False) => pok(
                ast,
                Expr::Literal { value: AtomLit::Bool(false) },
                span_at(toks, pos),
                pos + 1,
            ),
            Option::Some(Token::Underscore) => pok(
                ast,
                Expr::Literal { value: AtomLit::Nil },
                span_at(toks, pos),
                pos + 1,
            ),
            Option::Some(Token::Ident(s)) => {
                if tok_at(toks, pos + 1) == Option::Some(Token::LeftParen) {
                    spec_parse_call(toks, pos, ast, (fuel - 1) as nat)
                } else {
                    pok(
                        ast,
                        Expr::Access { ident: Span(s, span_at(toks, pos)) },
                        span_at(toks, pos),
                        pos + 1,
                    )
                }
            },
            Option::Some(Token::LeftParen) => {
                let r = spec_parse_expr(toks, pos + 1, ast, (fuel - 1) as nat);
                if !r.ok {
                    r
                } else if tok_at(toks, r.pos) == Option::Some(Token::RightParen) {
                    pok(
                        r.ast,
                        Expr::Group {
                            left_paren: span_at(toks, pos),
                            expr: r.node,
                            right_paren: span_at(toks, r.pos),
                        },
                        span_between(toks, pos, r.pos + 1),
                        r.pos + 1,
                    )
                } else {
                    pfail(r.pos, r.ast)
                }
            },
            _ => pfail(pos, ast),
        };
        if !prim.ok {
            prim
        } else if tok_at(toks, prim.pos) == Option::Some(Token::LeftBracket) {
            let c = spec_parse_expr(toks, prim.pos + 1, prim.ast, (fuel - 1) as nat);
            if !c.ok {
                c
            } else if tok_at(toks, c.pos) == Option::Some(Token::RightBracket) {
                pok(
                    c.ast,
                    Expr::Chain { parent: prim.node, child: c.node },
                    span_between(toks, pos, c.pos + 1),
                    c.pos + 1,
                )
            } else {
                pfail(c.pos, c.ast)
            }
        } else {
            prim
        }
    }
}

/// A function call: `ident ( args )`, a trailing comma allowed.
pub open spec fn spec_parse_call(toks: Seq<Span<Token>>, pos: int, ast: AstS, fuel: nat) -> PRes
    decreases fuel,
{
    if fuel == 0 {
        pfail(pos, ast)
    } else {
        match tok_at(toks, pos) {
            Option::Some(Token::Ident(s)) => {
                if tok_at(toks, pos + 1) != Option::Some(Token::LeftParen) {
                    pfail(if pos + 1 > toks.len() { toks.len() as int } else { pos + 1 }, ast)
                } else {
                    let ast0 = AstS {
                        nodes: ast.nodes.push(
                            Span(
                                Expr::Access { ident: Span(s, span_at(toks, pos)) },
                                span_at(toks, pos),
                            ),
                        ),
                        ..ast
                    };
                    let access = ast.nodes.len() as usize;
                    let a = spec_parse_call_args(toks, pos + 2, ast0, (fuel - 1) as nat);
                    if !a.ok {
                        PRes { ok: false, node: 0, pos: a.pos, ast: a.ast }
                    } else if tok_at(toks, a.pos) == Option::Some(Token::RightParen) {
                        let ast1 = push_kids(a.ast, a.ids);
                        pok(
                            ast1,
                            Expr::FnCall {
                                access,
                                left_paren: span_at(toks, pos + 1),
                                args_lo: a.ast.kids.len() as usize,
                                args_len: a.ids.len() as usize,
                                right_paren: span_at(toks, a.pos),
                            },
                            span_between(toks, pos, a.pos + 1),
                            a.pos + 1,
                        )
                    } else {
                        pfail(a.pos, a.ast)
                    }
                }
            },
            _ => pfail(pos, ast),
        }
    }
}

/// Call arguments: expressions separated by commas, a trailing comma allowed,
/// up to (not consuming) the closing parenthesis.
pub open spec fn spec_parse_call_args(
    toks: Seq<Span<Token>>,
    pos: int,
    ast: AstS,
    fuel: nat,
) -> PList
    decreases fuel,
{
    if fuel == 0 {
        PList { ok: false, ids: Seq::empty(), pos, ast }
    } else if tok_at(toks, pos) == Option::Some(Token::RightParen) {
        PList { ok: true, ids: Seq::empty(), pos, ast }
    } else {
        let e = spec_parse_expr(toks, pos, ast, (fuel - 1) as nat);
        if !e.ok {
            PList { ok: false, ids: Seq::empty(), pos: e.pos, ast: e.ast }
        } else if tok_at(toks, e.pos) == Option::Some(Token::Comma) {
            let rest = spec_parse_call_args(toks, e.pos + 1, e.ast, (fuel - 1) as nat);
            if !rest.ok {
                rest
            } else {
                PList { ids: seq![e.node] + rest.ids, ..rest }
            }
        } else {
            PList { ok: true, ids: seq![e.node], pos: e.pos, ast: e.ast }
        }
    }
}

/// A struct (object) literal: `struct { (fn decl | let stmt)* }`.
pub open spec fn spec_parse_object(toks: Seq<Span<Token>>, pos: int, ast: AstS, fuel: nat) -> PRes
    decreases fuel,
{
    if fuel == 0 {
        pfail(pos, ast)
    } else if tok_at(toks, pos + 1) != Option::Some(Token::LeftBrace) {
        pfail(if pos + 1 > toks.len() { toks.len() as int } else { pos + 1 }, ast)
    } else {
        let l = spec_parse_obj_entries(toks, pos + 2, ast, (fuel - 1) as nat);
        if !l.ok {
            PRes { ok: false, node: 0, pos: l.pos, ast: l.ast }
        } else if tok_at(toks, l.pos) == Option::Some(Token::RightBrace) {
            let ast1 = push_kids(l.ast, l.ids);
            pok(
                ast1,
                Expr::Object {
                    struct_token: span_at(toks, pos),
                    left_brace: span_at(toks, pos + 1),
                    exprs_lo: l.ast.kids.len() as usize,
                    exprs_len: l.ids.len() as usize,
                    right_brace: span_at(toks, l.pos),
                },
                span_between(toks, pos, l.pos + 1),
                l.pos + 1,
            )
        } else {
            pfail(l.pos, l.ast)
        }
    }
}

/// The entries of a struct literal: `fn` declarations and `let` statements.
pub open spec fn spec_parse_obj_entries(
    toks: Seq<Span<Token>>,
    pos: int,
    ast: AstS,
    fuel: nat,
) -> PList
    decreases fuel,
{
    if fuel == 0 {
        PList { ok: false, ids: Seq::empty(), pos, ast }
    } else if tok_at(toks, pos) == Option::Some(Token::RightBrace) {
        PList { ok: true, ids: Seq::empty(), pos, ast }
    } else {
        let e = if tok_at(toks, pos) == Option::Some(Token::Fn) {
            spec_parse_fn(toks, pos, ast, (fuel - 1) as nat)
        } else if tok_at(toks, pos) == Option::Some(Token::Let) {
            spec_parse_let(toks, pos, ast, (fuel - 1) as nat)
        } else {
            pfail(pos, ast)
        };
        if !e.ok {
            PList { ok: false, ids: Seq::empty(), pos: e.pos, ast: e.ast }
        } else {
            let rest = spec_parse_obj_entries(toks, e.pos, e.ast, (fuel - 1) as nat);
            if !rest.ok {
                rest
            } else {
                PList { ids: seq![e.node] + rest.ids, ..rest }
            }
        }
    }
}

/// A set literal: `set { expr , ... }`, no trailing comma.
pub open spec fn spec_parse_set(toks: Seq<Span<Token>>, pos: int, ast: AstS, fuel: nat) -> PRes
    decreases fuel,
{
    if fuel == 0 {
        pfail(pos, ast)
    } else if tok_at(toks, pos + 1) != Option::Some(Token::LeftBrace) {
        pfail(if pos + 1 > toks.len() { toks.len() as int } else { pos + 1 }, ast)
    } else {
        let l = spec_parse_set_elems(toks, pos + 2, ast, (fuel - 1) as nat);
        if !l.ok {
            PRes { ok: false, node: 0, pos: l.pos, ast: l.ast }
        } else if tok_at(toks, l.pos) == Option::Some(Token::RightBrace) {
            let ast1 = push_kids(l.ast, l.ids);
            pok(
                ast1,
                Expr::SetLit {
                    set_token: span_at(toks, pos),
                    left_brace: span_at(toks, pos + 1),
                    exprs_lo: l.ast.kids.len() as usize,
                    exprs_len: l.ids.len() as usize,
                    right_brace: span_at(toks, l.pos),
                },
                span_between(toks, pos, l.pos + 1),
                l.pos + 1,
            )
        } else {
            pfail(l.pos, l.ast)
        }
    }
}

/// The elements of a set literal.
pub open spec fn spec_parse_set_elems(
    toks: Seq<Span<Token>>,
    pos: int,
    ast: AstS,
    fuel: nat,
) -> PList
    decreases fuel,
{
    if fuel == 0 {
        PList { ok: false, ids: Seq::empty(), pos, ast }
    } else if tok_at(toks, pos) == Option::Some(Token::RightBrace) {
        PList { ok: true, ids: Seq::empty(), pos, ast }
    } else {
        let e = spec_parse_expr(toks, pos, ast, (fuel - 1) as nat);
        if !e.ok {
            PList { ok: false, ids: Seq::empty(), pos: e.pos, ast: e.ast }
        } else if tok_at(toks, e.pos) == Option::Some(Token::Comma) {
            let rest = spec_parse_set_elems(toks, e.pos + 1, e.ast, (fuel - 1) as nat);
            if !rest.ok {
                rest
            } else {
                PList { ids: seq![e.node] + rest.ids, ..rest }
            }
        } else {
            PList { ok: true, ids: seq![e.node], pos: e.pos, ast: e.ast }
        }
    }
}

/// The position after the first `;` at or after `p`, or the end of input:
/// where recovery resumes after a malformed statement.
pub open spec fn spec_sync_pos(toks: Seq<Span<Token>>, p: int) -> int
    decreases toks.len() - p,
{
    if p < 0 || p >= toks.len() {
        toks.len() as int
    } else if toks[p].0 == Token::Semi {
        p + 1
    } else {
        spec_sync_pos(toks, p + 1)
    }
}

/// The diagnostic span for a parse failure at token position `p`: the
/// offending token's span, or a zero-width span at the end of the input.
pub open spec fn spec_fail_span(toks: Seq<Span<Token>>, p: int) -> RawSpan {
    if 0 <= p < toks.len() {
        span_at(toks, p)
    } else if toks.len() > 0 {
        RawSpan { start: span_at(toks, toks.len() - 1).end, end: span_at(toks, toks.len() - 1).end }
    } else {
        RawSpan { start: 0, end: 0 }
    }
}

/// The fuel that the whole pass hands each statement: proportional to the
/// input, clamped to the machine word.
pub open spec fn spec_prog_fuel(n: nat) -> nat {
    if n > (usize::MAX / 8) as nat {
        usize::MAX as nat
    } else {
        4 * n + 16
    }
}

/// The whole pass from position `pos` on: statements parsed with per-
/// statement recovery, and the diagnostics collected.
pub struct ProgS {
    pub stmts: Seq<usize>,
    pub ast: AstS,
    pub diags: Seq<DiagV>,
}

/// Parse statements with recovery from `pos` to the end of the tokens.
pub open spec fn spec_parse_program(toks: Seq<Span<Token>>, pos: int, ast: AstS) -> ProgS
    decreases toks.len() - pos,
{
    if pos < 0 || pos >= toks.len() {
        ProgS { stmts: Seq::empty(), ast, diags: Seq::empty() }
    } else {
        let r = spec_parse_stmt(toks, pos, ast, spec_prog_fuel(toks.len() as nat));
        if r.ok {
            let next0 = if r.pos <= pos {
                pos + 1
            } else {
                r.pos
            };
            let next = if next0 > toks.len() {
                toks.len() as int
            } else {
                next0
            };
            let rest = spec_parse_program(toks, next, r.ast);
            ProgS { stmts: seq![r.node] + rest.stmts, ast: rest.ast, diags: rest.diags }
        } else {
            let d = DiagV {
                span: spec_fail_span(toks, r.pos),
                msg: "unexpected token".spec_bytes(),
            };
            let next0 = spec_sync_pos(toks, if r.pos < pos {
                pos
            } else {
                r.pos
            });
            let next1 = if next0 <= pos {
                pos + 1
            } else {
                next0
            };
            let next = if next1 > toks.len() {
                toks.len() as int
            } else {
                next1
            };
            let rest = spec_parse_program(toks, next, r.ast);
            ProgS { stmts: rest.stmts, ast: rest.ast, diags: seq![d] + rest.diags }
        }
    }
}

/// The token at `pos + off`, if any.
fn tok_get(toks: &Vec<Span<Token>>, pos: usize, off: usize) -> (r: Option<Token>)
    ensures
        r == tok_at(toks@, pos as int + off as int),
{
    if pos < toks.len() && toks.len() - pos > off {
        Some(toks[pos + off].0)
    } else {
        None
    }
}

/// The span of the token at `pos`, or a zero span out of range.
fn span_get(toks: &Vec<Span<Token>>, pos: usize) -> (r: RawSpan)
    ensures
        r == span_at(toks@, pos as int),
{
    if pos < toks.len() {
        toks[pos].1
    } else {
        RawSpan { start: 0, end: 0 }
    }
}

/// The span of the token before `pos`, or a zero span out of range.
fn span_get_prev(toks: &Vec<Span<Token>>, pos: usize) -> (r: RawSpan)
    ensures
        r == span_at(toks@, pos as int - 1),
{
    if pos == 0 {
        RawSpan { start: 0, end: 0 }
    } else {
        span_get(toks, pos - 1)
    }
}

/// The byte span covered by tokens `lo..hi`.
fn span_btw(toks: &Vec<Span<Token>>, lo: usize, hi: usize) -> (r: RawSpan)
    ensures
        r == span_between(toks@, lo as int, hi as int),
{
    let a = span_get(toks, lo);
    let b = span_get_prev(toks, hi);
    RawSpan { start: a.start, end: b.end }
}

/// Allocate a node in the arena and return its index.
fn alloc_node(ast: &mut Ast, e: Expr, sp: RawSpan) -> (id: usize)
    ensures
        final(ast).view_s() == (AstS {
            nodes: old(ast).nodes@.push(Span(e, sp)),
            ..old(ast).view_s()
        }),
        id == old(ast).nodes@.len(),
        final(ast).syms@ == old(ast).syms@,
{
    let id = ast.nodes.len();
    ast.nodes.push(Span(e, sp));
    id
}

/// Append a child list to the shared table and return its start.
fn append_kids(ast: &mut Ast, ids: &Vec<usize>) -> (lo: usize)
    ensures
        final(ast).view_s() == push_kids(old(ast).view_s(), ids@),
        lo == old(ast).kids@.len(),
        final(ast).syms@ == old(ast).syms@,
{
    let lo = ast.kids.len();
    let mut i: usize = 0;
    while i < ids.len()
        invariant
            i <= ids@.len(),
            ast.kids@ == old(ast).kids@ + ids@.subrange(0, i as int),
            ast.nodes@ == old(ast).nodes@,
            ast.params@ == old(ast).params@,
            ast.stmts@ == old(ast).stmts@,
            ast.syms@ == old(ast).syms@,
        decreases ids@.len() - i,
    {
        ast.kids.push(ids[i]);
        assert(ast.kids@ =~= old(ast).kids@ + ids@.subrange(0, i + 1 as int));
        i = i + 1;
    }
    assert(ast.kids@ =~= old(ast).kids@ + ids@);
    lo
}

/// Append a parameter list to the shared table and return its start.
fn append_params(ast: &mut Ast, ids: &Vec<Span<usize>>) -> (lo: usize)
    ensures
        final(ast).view_s() == (AstS { params: old(ast).params@ + ids@, ..old(ast).view_s() }),
        lo == old(ast).params@.len(),
        final(ast).syms@ == old(ast).syms@,
{
    let lo = ast.params.len();
    let mut i: usize = 0;
    while i < ids.len()
        invariant
            i <= ids@.len(),
            ast.params@ == old(ast).params@ + ids@.subrange(0, i as int),
            ast.nodes@ == old(ast).nodes@,
            ast.kids@ == old(ast).kids@,
            ast.stmts@ == old(ast).stmts@,
            ast.syms@ == old(ast).syms@,
        decreases ids@.len() - i,
    {
        ast.params.push(ids[i]);
        assert(ast.params@ =~= old(ast).params@ + ids@.subrange(0, i + 1 as int));
        i = i + 1;
    }
    assert(ast.params@ =~= old(ast).params@ + ids@);
    lo
}

/// Whether `t` begins an assignment statement after an identifier.
fn is_assign_op_x(t: &Token) -> (r: bool)
    ensures
        r == is_assign_op(*t),
{
    match t {
        Token::Eq | Token::PlusEq | Token::MinusEq | Token::StarEq | Token::SlashEq
            | Token::PercentEq | Token::ShlEq | Token::ShrEq | Token::AndEq | Token::PipeEq
            | Token::CaretEq => true,
        _ => false,
    }
}

/// Whether `t` is one of the binary operators.
fn is_binop_x(t: &Token) -> (r: bool)
    ensures
        r == is_binop(*t),
{
    match t {
        Token::Plus | Token::Minus | Token::Star | Token::Slash | Token::Percent | Token::Shl
            | Token::Shr | Token::And | Token::Pipe | Token::Caret | Token::EqEq | Token::Ne
            | Token::Gt | Token::Ge | Token::Lt | Token::Le => true,
        _ => false,
    }
}

/// Parse one statement; mirrors [`spec_parse_stmt`].
#[verifier::rlimit(80)]
fn parse_stmt(toks: &Vec<Span<Token>>, pos: usize, ast: &mut Ast, fuel: usize) -> (r: (
    bool,
    usize,
    usize,
))
    requires
        pos <= toks@.len(),
    ensures
        ({
            let s = spec_parse_stmt(toks@, pos as int, old(ast).view_s(), fuel as nat);
            &&& r.0 == s.ok
            &&& r.1 == s.node
            &&& r.2 as int == s.pos
            &&& final(ast).view_s() == s.ast
            &&& final(ast).syms@ == old(ast).syms@
            &&& final(ast).stmts@ == old(ast).stmts@
            &&& r.2 <= toks@.len()
        }),
    decreases fuel,
{
    let _n: usize = toks.len();
    if fuel == 0 {
        return (false, 0, pos);
    }
    let t = match tok_get(toks, pos, 0) {
        Some(t) => t,
        None => {
            return (false, 0, pos);
        },
    };
    if t == Token::LeftBrace {
        parse_block(toks, pos, ast, fuel - 1)
    } else if t == Token::Fn {
        parse_fn(toks, pos, ast, fuel - 1)
    } else if t == Token::Return {
        let r = parse_expr(toks, pos + 1, ast, fuel - 1);
        if !r.0 {
            r
        } else {
            match tok_get(toks, r.2, 0) {
                Some(Token::Semi) => {
                    let e = Expr::Return {
                        return_token: span_get(toks, pos),
                        semi_token: span_get(toks, r.2),
                        value: r.1,
                    };
                    let sp = span_btw(toks, pos, r.2 + 1);
                    let id = alloc_node(ast, e, sp);
                    (true, id, r.2 + 1)
                },
                _ => (false, 0, r.2),
            }
        }
    } else if t == Token::Let {
        parse_let(toks, pos, ast, fuel - 1)
    } else if t == Token::If {
        parse_if(toks, pos, ast, fuel - 1)
    } else if t == Token::While {
        let c = parse_paren_cond(toks, pos + 1, ast, fuel - 1);
        if !c.0 {
            c
        } else {
            let b = parse_block(toks, c.2, ast, fuel - 1);
            if !b.0 {
                b
            } else {
                let e = Expr::While {
                    while_token: span_get(toks, pos),
                    condition: c.1,
                    then: b.1,
                };
                let sp = span_btw(toks, pos, b.2);
                let id = alloc_node(ast, e, sp);
                (true, id, b.2)
            }
        }
    } else if t == Token::Print {
        let c = parse_paren_cond(toks, pos + 1, ast, fuel - 1);
        if !c.0 {
            c
        } else {
            match tok_get(toks, c.2, 0) {
                Some(Token::Semi) => {
                    let e = Expr::Print {
                        print_token: span_get(toks, pos),
                        left_paren: span_get(toks, pos + 1),
                        right_paren: span_get_prev(toks, c.2),
                        semi_token: span_get(toks, c.2),
                        value: c.1,
                    };
                    let sp = span_btw(toks, pos, c.2 + 1);
                    let id = alloc_node(ast, e, sp);
                    (true, id, c.2 + 1)
                },
                _ => (false, 0, c.2),
            }
        }
    } else {
        let is_assign = match t {
            Token::Ident(_) => {
                match tok_get(toks, pos, 1) {
                    Some(t2) => is_assign_op_x(&t2),
                    None => false,
                }
            },
            _ => false,
        };
        if is_assign {
            parse_assign(toks, pos, ast, fuel - 1)
        } else {
            let r = parse_expr(toks, pos, ast, fuel - 1);
            if !r.0 {
                r
            } else {
                match tok_get(toks, r.2, 0) {
                    Some(Token::Semi) => (true, r.1, r.2 + 1),
                    _ => (false, 0, r.2),
                }
            }
        }
    }
}

/// Parse `( expr )`; mirrors [`spec_parse_paren_cond`].
#[verifier::rlimit(80)]
fn parse_paren_cond(toks: &Vec<Span<Token>>, pos: usize, ast: &mut Ast, fuel: usize) -> (r: (
    bool,
    usize,
    usize,
))
    requires
        pos <= toks@.len(),
    ensures
        ({
            let s = spec_parse_paren_cond(toks@, pos as int, old(ast).view_s(), fuel as nat);
            &&& r.0 == s.ok
            &&& r.1 == s.node
            &&& r.2 as int == s.pos
            &&& final(ast).view_s() == s.ast
            &&& final(ast).syms@ == old(ast).syms@
            &&& final(ast).stmts@ == old(ast).stmts@
            &&& r.2 <= toks@.len()
        }),
    decreases fuel,
{
    let _n: usize = toks.len();
    if fuel == 0 {
        return (false, 0, pos);
    }
    match tok_get(toks, pos, 0) {
        Some(Token::LeftParen) => {
            let r = parse_expr(toks, pos + 1, ast, fuel - 1);
            if !r.0 {
                r
            } else {
                match tok_get(toks, r.2, 0) {
                    Some(Token::RightParen) => (true, r.1, r.2 + 1),
                    _ => (false, 0, r.2),
                }
            }
        },
        _ => (false, 0, pos),
    }
}

/// Parse `{ stmt* }`; mirrors [`spec_parse_block`].
#[verifier::rlimit(80)]
fn parse_block(toks: &Vec<Span<Token>>, pos: usize, ast: &mut Ast, fuel: usize) -> (r: (
    bool,
    usize,
    usize,
))
    requires
        pos <= toks@.len(),
    ensures
        ({
            let s = spec_parse_block(toks@, pos as int, old(ast).view_s(), fuel as nat);
            &&& r.0 == s.ok
            &&& r.1 == s.node
            &&& r.2 as int == s.pos
            &&& final(ast).view_s() == s.ast
            &&& final(ast).syms@ == old(ast).syms@
            &&& final(ast).stmts@ == old(ast).stmts@
            &&& r.2 <= toks@.len()
        }),
    decreases fuel,
{
    let _n: usize = toks.len();
    if fuel == 0 {
        return (false, 0, pos);
    }
    match tok_get(toks, pos, 0) {
        Some(Token::LeftBrace) => {
            let l = parse_stmt_list(toks, pos + 1, ast, fuel - 1);
            if !l.0 {
                (false, 0, l.2)
            } else {
                match tok_get(toks, l.2, 0) {
                    Some(Token::RightBrace) => {
                        let lo = append_kids(ast, &l.1);
                        let e = Expr::Block {
                            left_brace: span_get(toks, pos),
                            exprs_lo: lo,
                            exprs_len: l.1.len(),
                            right_brace: span_get(toks, l.2),
                        };
                        let sp = span_btw(toks, pos, l.2 + 1);
                        let id = alloc_node(ast, e, sp);
                        (true, id, l.2 + 1)
                    },
                    _ => (false, 0, l.2),
                }
            }
        },
        _ => (false, 0, pos),
    }
}

/// Parse the statements of a block; mirrors [`spec_parse_stmt_list`].
#[verifier::rlimit(80)]
fn parse_stmt_list(toks: &Vec<Span<Token>>, pos: usize, ast: &mut Ast, fuel: usize) -> (r: (
    bool,
    Vec<usize>,
    usize,
))
    requires
        pos <= toks@.len(),
    ensures
        ({
            let s = spec_parse_stmt_list(toks@, pos as int, old(ast).view_s(), fuel as nat);
            &&& r.0 == s.ok
            &&& r.1@ == s.ids
            &&& r.2 as int == s.pos
            &&& final(ast).view_s() == s.ast
            &&& final(ast).syms@ == old(ast).syms@
            &&& final(ast).stmts@ == old(ast).stmts@
            &&& r.2 <= toks@.len()
        }),
    decreases fuel,
{
    let _n: usize = toks.len();
    if fuel == 0 {
        let ids: Vec<usize> = Vec::new();
        assert(ids@ =~= Seq::<usize>::empty());
        return (false, ids, pos);
    }
    match tok_get(toks, pos, 0) {
        Some(Token::RightBrace) => {
            let ids: Vec<usize> = Vec::new();
            assert(ids@ =~= Seq::<usize>::empty());
            (true, ids, pos)
        },
        None => {
            let ids: Vec<usize> = Vec::new();
            assert(ids@ =~= Seq::<usize>::empty());
            (false, ids, pos)
        },
        _ => {
            let r = parse_stmt(toks, pos, ast, fuel - 1);
            if !r.0 {
                let ids: Vec<usize> = Vec::new();
                assert(ids@ =~= Seq::<usize>::empty());
                (false, ids, r.2)
            } else {
                let rest = parse_stmt_list(toks, r.2, ast, fuel - 1);
                if !rest.0 {
                    rest
                } else {
                    let mut ids: Vec<usize> = Vec::new();
                    ids.push(r.1);
                    let mut i: usize = 0;
                    while i < rest.1.len()
                        invariant
                            i <= rest.1@.len(),
                            ids@ == seq![r.1].add(rest.1@.subrange(0, i as int)),
                        decreases rest.1@.len() - i,
                    {
                        ids.push(rest.1[i]);
                        assert(ids@ =~= seq![r.1].add(rest.1@.subrange(0, i + 1 as int)));
                        i = i + 1;
                    }
                    assert(ids@ =~= seq![r.1] + rest.1@);
                    (true, ids, rest.2)
                }
            }
        },
    }
}

/// Parse `fn name ( params ) block`; mirrors [`spec_parse_fn`].
#[verifier::rlimit(80)]
fn parse_fn(toks: &Vec<Span<Token>>, pos: usize, ast: &mut Ast, fuel: usize) -> (r: (
    bool,
    usize,
    usize,
))
    requires
        pos <= toks@.len(),
    ensures
        ({
            let s = spec_parse_fn(toks@, pos as int, old(ast).view_s(), fuel as nat);
            &&& r.0 == s.ok
            &&& r.1 == s.node
            &&& r.2 as int == s.pos
            &&& final(ast).view_s() == s.ast
            &&& final(ast).syms@ == old(ast).syms@
            &&& final(ast).stmts@ == old(ast).stmts@
            &&& r.2 <= toks@.len()
        }),
    decreases fuel,
{
    let _n: usize = toks.len();
    if fuel == 0 {
        return (false, 0, pos);
    }
    let sym = match tok_get(toks, pos, 1) {
        Some(Token::Ident(s)) => s,
        _ => {
            let fp = if pos < toks.len() {
                pos + 1
            } else {
                toks.len()
            };
            return (false, 0, fp);
        },
    };
    match tok_get(toks, pos, 2) {
        Some(Token::LeftParen) => {},
        _ => {
            return (false, 0, pos + 2);
        },
    }
    let p = parse_params(toks, pos + 3, fuel - 1);
    if !p.0 {
        return (false, 0, p.2);
    }
    match tok_get(toks, p.2, 0) {
        Some(Token::RightParen) => {},
        _ => {
            return (false, 0, p.2);
        },
    }
    let b = parse_block(toks, p.2 + 1, ast, fuel - 1);
    if !b.0 {
        return b;
    }
    let lo = append_params(ast, &p.1);
    let e = Expr::FnDecl {
        fn_token: span_get(toks, pos),
        name: Span(sym, span_get(toks, pos + 1)),
        left_paren: span_get(toks, pos + 2),
        args_lo: lo,
        args_len: p.1.len(),
        right_paren: span_get(toks, p.2),
        block: b.1,
    };
    let sp = span_btw(toks, pos, b.2);
    let id = alloc_node(ast, e, sp);
    (true, id, b.2)
}

/// Parse a parameter list; mirrors [`spec_parse_params`].
#[verifier::rlimit(80)]
fn parse_params(toks: &Vec<Span<Token>>, pos: usize, fuel: usize) -> (r: (
    bool,
    Vec<Span<usize>>,
    usize,
))
    requires
        pos <= toks@.len(),
    ensures
        ({
            let s = spec_parse_params(toks@, pos as int, fuel as nat);
            &&& r.0 == s.ok
            &&& r.1@ == s.ids
            &&& r.2 as int == s.pos
            &&& r.2 <= toks@.len()
        }),
    decreases fuel,
{
    let _n: usize = toks.len();
    if fuel == 0 {
        let ids: Vec<Span<usize>> = Vec::new();
        assert(ids@ =~= Seq::<Span<usize>>::empty());
        return (false, ids, pos);
    }
    match tok_get(toks, pos, 0) {
        Some(Token::RightParen) => {
            let ids: Vec<Span<usize>> = Vec::new();
            assert(ids@ =~= Seq::<Span<usize>>::empty());
            (true, ids, pos)
        },
        Some(Token::Ident(s)) => {
            let head = Span(s, span_get(toks, pos));
            match tok_get(toks, pos, 1) {
                Some(Token::Comma) => {
                    let rest = parse_params_more(toks, pos + 2, fuel - 1);
                    if !rest.0 {
                        rest
                    } else {
                        let mut ids: Vec<Span<usize>> = Vec::new();
                        ids.push(head);
                        let mut i: usize = 0;
                        while i < rest.1.len()
                            invariant
                                i <= rest.1@.len(),
                                ids@ == seq![head].add(rest.1@.subrange(0, i as int)),
                            decreases rest.1@.len() - i,
                        {
                            ids.push(rest.1[i]);
                            assert(ids@ =~= seq![head].add(rest.1@.subrange(0, i + 1 as int)));
                            i = i + 1;
                        }
                        assert(ids@ =~= seq![head] + rest.1@);
                        (true, ids, rest.2)
                    }
                },
                _ => {
                    let mut ids: Vec<Span<usize>> = Vec::new();
                    ids.push(head);
                    assert(ids@ =~= seq![head]);
                    (true, ids, pos + 1)
                },
            }
        },
        _ => {
            let ids: Vec<Span<usize>> = Vec::new();
            assert(ids@ =~= Seq::<Span<usize>>::empty());
            (false, ids, pos)
        },
    }
}

/// Parse the rest of a parameter list; mirrors [`spec_parse_params_more`].
#[verifier::rlimit(80)]
fn parse_params_more(toks: &Vec<Span<Token>>, pos: usize, fuel: usize) -> (r: (
    bool,
    Vec<Span<usize>>,
    usize,
))
    requires
        pos <= toks@.len(),
    ensures
        ({
            let s = spec_parse_params_more(toks@, pos as int, fuel as nat);
            &&& r.0 == s.ok
            &&& r.1@ == s.ids
            &&& r.2 as int == s.pos
            &&& r.2 <= toks@.len()
        }),
    decreases fuel,
{
    let _n: usize = toks.len();
    if fuel == 0 {
        let ids: Vec<Span<usize>> = Vec::new();
        assert(ids@ =~= Seq::<Span<usize>>::empty());
        return (false, ids, pos);
    }
    match tok_get(toks, pos, 0) {
        Some(Token::Ident(s)) => {
            let head = Span(s, span_get(toks, pos));
            match tok_get(toks, pos, 1) {
                Some(Token::Comma) => {
                    let rest = parse_params_more(toks, pos + 2, fuel - 1);
                    if !rest.0 {
                        rest
                    } else {
                        let mut ids: Vec<Span<usize>> = Vec::new();
                        ids.push(head);
                        let mut i: usize = 0;
                        while i < rest.1.len()
                            invariant
                                i <= rest.1@.len(),
                                ids@ == seq![head].add(rest.1@.subrange(0, i as int)),
                            decreases rest.1@.len() - i,
                        {
                            ids.push(rest.1[i]);
                            assert(ids@ =~= seq![head].add(rest.1@.subrange(0, i + 1 as int)));
                            i = i + 1;
                        }
                        assert(ids@ =~= seq![head] + rest.1@);
                        (true, ids, rest.2)
                    }
                },
                _ => {
                    let mut ids: Vec<Span<usize>> = Vec::new();
                    ids.push(head);
                    assert(ids@ =~= seq![head]);
                    (true, ids, pos + 1)
                },
            }
        },
        _ => {
            let ids: Vec<Span<usize>> = Vec::new();
            assert(ids@ =~= Seq::<Span<usize>>::empty());
            (false, ids, pos)
        },
    }
}

/// Parse `let ident = expr ;`; mirrors [`spec_parse_let`].
#[verifier::rlimit(80)]
fn parse_let(toks: &Vec<Span<Token>>, pos: usize, ast: &mut Ast, fuel: usize) -> (r: (
    bool,
    usize,
    usize,
))
    requires
        pos <= toks@.len(),
    ensures
        ({
            let s = spec_parse_let(toks@, pos as int, old(ast).view_s(), fuel as nat);
            &&& r.0 == s.ok
            &&& r.1 == s.node
            &&& r.2 as int == s.pos
            &&& final(ast).view_s() == s.ast
            &&& final(ast).syms@ == old(ast).syms@
            &&& final(ast).stmts@ == old(ast).stmts@
            &&& r.2 <= toks@.len()
        }),
    decreases fuel,
{
    let _n: usize = toks.len();
    if fuel == 0 {
        return (false, 0, pos);
    }
    let sym = match tok_get(toks, pos, 1) {
        Some(Token::Ident(s)) => s,
        _ => {
            let fp = if pos < toks.len() {
                pos + 1
            } else {
                toks.len()
            };
            return (false, 0, fp);
        },
    };
    match tok_get(toks, pos, 2) {
        Some(Token::Eq) => {},
        _ => {
            return (false, 0, pos + 2);
        },
    }
    let r = parse_expr(toks, pos + 3, ast, fuel - 1);
    if !r.0 {
        return r;
    }
    match tok_get(toks, r.2, 0) {
        Some(Token::Semi) => {
            let e = Expr::Let {
                let_token: span_get(toks, pos),
                ident: Span(sym, span_get(toks, pos + 1)),
                eq_token: span_get(toks, pos + 2),
                expr: r.1,
                semi_token: span_get(toks, r.2),
            };
            let sp = span_btw(toks, pos, r.2 + 1);
            let id = alloc_node(ast, e, sp);
            (true, id, r.2 + 1)
        },
        _ => (false, 0, r.2),
    }
}

/// Parse an `if` statement; mirrors [`spec_parse_if`].
#[verifier::rlimit(80)]
fn parse_if(toks: &Vec<Span<Token>>, pos: usize, ast: &mut Ast, fuel: usize) -> (r: (
    bool,
    usize,
    usize,
))
    requires
        pos <= toks@.len(),
    ensures
        ({
            let s = spec_parse_if(toks@, pos as int, old(ast).view_s(), fuel as nat);
            &&& r.0 == s.ok
            &&& r.1 == s.node
            &&& r.2 as int == s.pos
            &&& final(ast).view_s() == s.ast
            &&& final(ast).syms@ == old(ast).syms@
            &&& final(ast).stmts@ == old(ast).stmts@
            &&& r.2 <= toks@.len()
        }),
    decreases fuel,
{
    let _n: usize = toks.len();
    if fuel == 0 {
        return (false, 0, pos);
    }
    if pos >= toks.len() {
        return (false, 0, pos);
    }
    let c = parse_paren_cond(toks, pos + 1, ast, fuel - 1);
    if !c.0 {
        return c;
    }
    let b = parse_block(toks, c.2, ast, fuel - 1);
    if !b.0 {
        return b;
    }
    match tok_get(toks, b.2, 0) {
        Some(Token::Else) => {
            let is_else_if = match tok_get(toks, b.2, 1) {
                Some(Token::If) => true,
                _ => false,
            };
            let o = if is_else_if {
                parse_if(toks, b.2 + 1, ast, fuel - 1)
            } else {
                parse_block(toks, b.2 + 1, ast, fuel - 1)
            };
            if !o.0 {
                return o;
            }
            let e = Expr::If {
                if_token: span_get(toks, pos),
                condition: c.1,
                then: b.1,
                else_token: Some(span_get(toks, b.2)),
                other: Some(o.1),
            };
            let sp = span_btw(toks, pos, o.2);
            let id = alloc_node(ast, e, sp);
            (true, id, o.2)
        },
        _ => {
            let e = Expr::If {
                if_token: span_get(toks, pos),
                condition: c.1,
                then: b.1,
                else_token: None,
                other: None,
            };
            let sp = span_btw(toks, pos, b.2);
            let id = alloc_node(ast, e, sp);
            (true, id, b.2)
        },
    }
}

/// Parse an assignment statement; mirrors [`spec_parse_assign`].
#[verifier::rlimit(80)]
fn parse_assign(toks: &Vec<Span<Token>>, pos: usize, ast: &mut Ast, fuel: usize) -> (r: (
    bool,
    usize,
    usize,
))
    requires
        pos <= toks@.len(),
    ensures
        ({
            let s = spec_parse_assign(toks@, pos as int, old(ast).view_s(), fuel as nat);
            &&& r.0 == s.ok
            &&& r.1 == s.node
            &&& r.2 as int == s.pos
            &&& final(ast).view_s() == s.ast
            &&& final(ast).syms@ == old(ast).syms@
            &&& final(ast).stmts@ == old(ast).stmts@
            &&& r.2 <= toks@.len()
        }),
    decreases fuel,
{
    let _n: usize = toks.len();
    if fuel == 0 {
        return (false, 0, pos);
    }
    let sym = match tok_get(toks, pos, 0) {
        Some(Token::Ident(s)) => s,
        _ => {
            return (false, 0, pos);
        },
    };
    let op = match tok_get(toks, pos, 1) {
        Some(t2) => t2,
        None => {
            return (false, 0, pos);
        },
    };
    let r = parse_expr(toks, pos + 2, ast, fuel - 1);
    if !r.0 {
        return r;
    }
    match tok_get(toks, r.2, 0) {
        Some(Token::Semi) => {
            let ident = Span(sym, span_get(toks, pos));
            let opsp = span_get(toks, pos + 1);
            let semisp = span_get(toks, r.2);
            let e = match op {
                Token::PlusEq => Expr::AddAssign {
                    ident,
                    plus_eq_token: opsp,
                    expr: r.1,
                    semi_token: semisp,
                },
                Token::MinusEq => Expr::SubAssign {
                    ident,
                    minus_eq_token: opsp,
                    expr: r.1,
                    semi_token: semisp,
                },
                Token::StarEq => Expr::MulAssign {
                    ident,
                    star_eq_token: opsp,
                    expr: r.1,
                    semi_token: semisp,
                },
                Token::SlashEq => Expr::DivAssign {
                    ident,
                    slash_eq_token: opsp,
                    expr: r.1,
                    semi_token: semisp,
                },
                Token::PercentEq => Expr::RemAssign {
                    ident,
                    percent_eq_token: opsp,
                    expr: r.1,
                    semi_token: semisp,
                },
                Token::ShlEq => Expr::ShlAssign {
                    ident,
                    shl_eq_token: opsp,
                    expr: r.1,
                    semi_token: semisp,
                },
                Token::ShrEq => Expr::ShrAssign {
                    ident,
                    shr_eq_token: opsp,
                    expr: r.1,
                    semi_token: semisp,
                },
                Token::AndEq => Expr::AndAssign {
                    ident,
                    and_eq_token: opsp,
                    expr: r.1,
                    semi_token: semisp,
                },
                Token::PipeEq => Expr::OrAssign {
                    ident,
                    pipe_eq_token: opsp,
                    expr: r.1,
                    semi_token: semisp,
                },
                Token::CaretEq => Expr::XorAssign {
                    ident,
                    caret_eq_token: opsp,
                    expr: r.1,
                    semi_token: semisp,
                },
                _ => Expr::Assign { ident, eq_token: opsp, expr: r.1, semi_token: semisp },
            };
            let sp = span_btw(toks, pos, r.2 + 1);
            let id = alloc_node(ast, e, sp);
            (true, id, r.2 + 1)
        },
        _ => (false, 0, r.2),
    }
}

/// Parse one expression; mirrors [`spec_parse_expr`].
#[verifier::rlimit(80)]
fn parse_expr(toks: &Vec<Span<Token>>, pos: usize, ast: &mut Ast, fuel: usize) -> (r: (
    bool,
    usize,
    usize,
))
    requires
        pos <= toks@.len(),
    ensures
        ({
            let s = spec_parse_expr(toks@, pos as int, old(ast).view_s(), fuel as nat);
            &&& r.0 == s.ok
            &&& r.1 == s.node
            &&& r.2 as int == s.pos
            &&& final(ast).view_s() == s.ast
            &&& final(ast).syms@ == old(ast).syms@
            &&& final(ast).stmts@ == old(ast).stmts@
            &&& r.2 <= toks@.len()
        }),
    decreases fuel,
{
    let _n: usize = toks.len();
    if fuel == 0 {
        return (false, 0, pos);
    }
    let t = match tok_get(toks, pos, 0) {
        Some(t) => t,
        None => {
            return (false, 0, pos);
        },
    };
    if t == Token::Struct {
        parse_object(toks, pos, ast, fuel - 1)
    } else if t == Token::SetKw {
        parse_set(toks, pos, ast, fuel - 1)
    } else if t == Token::Bang {
        let r = parse_atom(toks, pos + 1, ast, fuel - 1);
        if !r.0 {
            r
        } else {
            let e = Expr::Not { bang_token: span_get(toks, pos), expr: r.1 };
            let sp = span_btw(toks, pos, r.2);
            let id = alloc_node(ast, e, sp);
            (true, id, r.2)
        }
    } else if t == Token::Minus {
        let r = parse_atom(toks, pos + 1, ast, fuel - 1);
        if !r.0 {
            r
        } else {
            let e = Expr::Neg { minus_token: span_get(toks, pos), expr: r.1 };
            let sp = span_btw(toks, pos, r.2);
            let id = alloc_node(ast, e, sp);
            (true, id, r.2)
        }
    } else {
        let is_call = match t {
            Token::Ident(_) => {
                match tok_get(toks, pos, 1) {
                    Some(Token::LeftParen) => true,
                    _ => false,
                }
            },
            _ => false,
        };
        if is_call {
            parse_call(toks, pos, ast, fuel - 1)
        } else {
            let a = parse_atom(toks, pos, ast, fuel - 1);
            if !a.0 {
                a
            } else {
                match tok_get(toks, a.2, 0) {
                    Some(op) => {
                        if is_binop_x(&op) {
                            let b = parse_atom(toks, a.2 + 1, ast, fuel - 1);
                            if !b.0 {
                                b
                            } else {
                                let opsp = span_get(toks, a.2);
                                let e = match op {
                                    Token::Plus => Expr::Add { lhs: a.1, plus_token: opsp, rhs: b.1 },
                                    Token::Minus => Expr::Sub { lhs: a.1, minus_token: opsp, rhs: b.1 },
                                    Token::Star => Expr::Mul { lhs: a.1, star_token: opsp, rhs: b.1 },
                                    Token::Slash => Expr::Div { lhs: a.1, slash_token: opsp, rhs: b.1 },
                                    Token::Percent => Expr::Rem {
                                        lhs: a.1,
                                        percent_token: opsp,
                                        rhs: b.1,
                                    },
                                    Token::Shl => Expr::Shl { lhs: a.1, shl_token: opsp, rhs: b.1 },
                                    Token::Shr => Expr::Shr { lhs: a.1, shr_token: opsp, rhs: b.1 },
                                    Token::And => Expr::And { lhs: a.1, and_token: opsp, rhs: b.1 },
                                    Token::Pipe => Expr::Or { lhs: a.1, pipe_token: opsp, rhs: b.1 },
                                    Token::Caret => Expr::Xor { lhs: a.1, caret_token: opsp, rhs: b.1 },
                                    Token::EqEq => Expr::Eq { lhs: a.1, eqeq_token: opsp, rhs: b.1 },
                                    Token::Ne => Expr::Ne { lhs: a.1, ne_token: opsp, rhs: b.1 },
                                    Token::Gt => Expr::Gt { lhs: a.1, gt_token: opsp, rhs: b.1 },
                                    Token::Ge => Expr::Ge { lhs: a.1, ge_token: opsp, rhs: b.1 },
                                    Token::Lt => Expr::Lt { lhs: a.1, lt_token: opsp, rhs: b.1 },
                                    _ => Expr::Le { lhs: a.1, le_token: opsp, rhs: b.1 },
                                };
                                let sp = span_btw(toks, pos, b.2);
                                let id = alloc_node(ast, e, sp);
                                (true, id, b.2)
                            }
                        } else {
                            a
                        }
                    },
                    None => a,
                }
            }
        }
    }
}

/// Parse an atom with an optional member access; mirrors [`spec_parse_atom`].
#[verifier::rlimit(80)]
fn parse_atom(toks: &Vec<Span<Token>>, pos: usize, ast: &mut Ast, fuel: usize) -> (r: (
    bool,
    usize,
    usize,
))
    requires
        pos <= toks@.len(),
    ensures
        ({
            let s = spec_parse_atom(toks@, pos as int, old(ast).view_s(), fuel as nat);
            &&& r.0 == s.ok
            &&& r.1 == s.node
            &&& r.2 as int == s.pos
            &&& final(ast).view_s() == s.ast
            &&& final(ast).syms@ == old(ast).syms@
            &&& final(ast).stmts@ == old(ast).stmts@
            &&& r.2 <= toks@.len()
        }),
    decreases fuel,
{
    let _n: usize = toks.len();
    if fuel == 0 {
        return (false, 0, pos);
    }
    let prim: (bool, usize, usize) = match tok_get(toks, pos, 0) {
        Some(Token::Number(n)) => {
            let sp = span_get(toks, pos);
            let id = alloc_node(ast, Expr::Literal { value: AtomLit::Integer(n) }, sp);
            (true, id, pos + 1)
        },
        Some(Token::Str(sy)) => {
            let sp = span_get(toks, pos);
            let id = alloc_node(ast, Expr::Literal { value: AtomLit::Str(sy) }, sp);
            (true, id, pos + 1)
        },
        Some(Token::True) => {
            let sp = span_get(toks, pos);
            let id = alloc_node(ast, Expr::Literal { value: AtomLit::Bool(true) }, sp);
            (true, id, pos + 1)
        },
        Some(Token::False) => {
            let sp = span_get(toks, pos);
            let id = alloc_node(ast, Expr::Literal { value: AtomLit::Bool(false) }, sp);
            (true, id, pos + 1)
        },
        Some(Token::Underscore) => {
            let sp = span_get(toks, pos);
            let id = alloc_node(ast, Expr::Literal { value: AtomLit::Nil }, sp);
            (true, id, pos + 1)
        },
        Some(Token::Ident(sy)) => {
            let is_call = match tok_get(toks, pos, 1) {
                Some(Token::LeftParen) => true,
                _ => false,
            };
            if is_call {
                parse_call(toks, pos, ast, fuel - 1)
            } else {
                let sp = span_get(toks, pos);
                let id = alloc_node(ast, Expr::Access { ident: Span(sy, sp) }, sp);
                (true, id, pos + 1)
            }
        },
        Some(Token::LeftParen) => {
            let r = parse_expr(toks, pos + 1, ast, fuel - 1);
            if !r.0 {
                r
            } else {
                match tok_get(toks, r.2, 0) {
                    Some(Token::RightParen) => {
                        let e = Expr::Group {
                            left_paren: span_get(toks, pos),
                            expr: r.1,
                            right_paren: span_get(toks, r.2),
                        };
                        let sp = span_btw(toks, pos, r.2 + 1);
                        let id = alloc_node(ast, e, sp);
                        (true, id, r.2 + 1)
                    },
                    _ => (false, 0, r.2),
                }
            }
        },
        _ => (false, 0, pos),
    };
    if !prim.0 {
        return prim;
    }
    match tok_get(toks, prim.2, 0) {
        Some(Token::LeftBracket) => {
            let c = parse_expr(toks, prim.2 + 1, ast, fuel - 1);
            if !c.0 {
                return c;
            }
            match tok_get(toks, c.2, 0) {
                Some(Token::RightBracket) => {
                    let e = Expr::Chain { parent: prim.1, child: c.1 };
                    let sp = span_btw(toks, pos, c.2 + 1);
                    let id = alloc_node(ast, e, sp);
                    (true, id, c.2 + 1)
                },
                _ => (false, 0, c.2),
            }
        },
        _ => prim,
    }
}

/// Parse a function call; mirrors [`spec_parse_call`].
#[verifier::rlimit(80)]
fn parse_call(toks: &Vec<Span<Token>>, pos: usize, ast: &mut Ast, fuel: usize) -> (r: (
    bool,
    usize,
    usize,
))
    requires
        pos <= toks@.len(),
    ensures
        ({
            let s = spec_parse_call(toks@, pos as int, old(ast).view_s(), fuel as nat);
            &&& r.0 == s.ok
            &&& r.1 == s.node
            &&& r.2 as int == s.pos
            &&& final(ast).view_s() == s.ast
            &&& final(ast).syms@ == old(ast).syms@
            &&& final(ast).stmts@ == old(ast).stmts@
            &&& r.2 <= toks@.len()
        }),
    decreases fuel,
{
    let _n: usize = toks.len();
    if fuel == 0 {
        return (false, 0, pos);
    }
    let sym = match tok_get(toks, pos, 0) {
        Some(Token::Ident(s)) => s,
        _ => {
            return (false, 0, pos);
        },
    };
    match tok_get(toks, pos, 1) {
        Some(Token::LeftParen) => {},
        _ => {
            let fp = if pos < toks.len() {
                pos + 1
            } else {
                toks.len()
            };
            return (false, 0, fp);
        },
    }
    let isp = span_get(toks, pos);
    let access = alloc_node(ast, Expr::Access { ident: Span(sym, isp) }, isp);
    let a = parse_call_args(toks, pos + 2, ast, fuel - 1);
    if !a.0 {
        return (false, 0, a.2);
    }
    match tok_get(toks, a.2, 0) {
        Some(Token::RightParen) => {
            let lo = append_kids(ast, &a.1);
            let e = Expr::FnCall {
                access,
                left_paren: span_get(toks, pos + 1),
                args_lo: lo,
                args_len: a.1.len(),
                right_paren: span_get(toks, a.2),
            };
            let sp = span_btw(toks, pos, a.2 + 1);
            let id = alloc_node(ast, e, sp);
            (true, id, a.2 + 1)
        },
        _ => (false, 0, a.2),
    }
}

/// Parse call arguments; mirrors [`spec_parse_call_args`].
#[verifier::rlimit(80)]
fn parse_call_args(toks: &Vec<Span<Token>>, pos: usize, ast: &mut Ast, fuel: usize) -> (r: (
    bool,
    Vec<usize>,
    usize,
))
    requires
        pos <= toks@.len(),
    ensures
        ({
            let s = spec_parse_call_args(toks@, pos as int, old(ast).view_s(), fuel as nat);
            &&& r.0 == s.ok
            &&& r.1@ == s.ids
            &&& r.2 as int == s.pos
            &&& final(ast).view_s() == s.ast
            &&& final(ast).syms@ == old(ast).syms@
            &&& final(ast).stmts@ == old(ast).stmts@
            &&& r.2 <= toks@.len()
        }),
    decreases fuel,
{
    let _n: usize = toks.len();
    if fuel == 0 {
        let ids: Vec<usize> = Vec::new();
        assert(ids@ =~= Seq::<usize>::empty());
        return (false, ids, pos);
    }
    match tok_get(toks, pos, 0) {
        Some(Token::RightParen) => {
            let ids: Vec<usize> = Vec::new();
            assert(ids@ =~= Seq::<usize>::empty());
            return (true, ids, pos);
        },
        _ => {},
    }
    let e = parse_expr(toks, pos, ast, fuel - 1);
    if !e.0 {
        let ids: Vec<usize> = Vec::new();
        assert(ids@ =~= Seq::<usize>::empty());
        return (false, ids, e.2);
    }
    match tok_get(toks, e.2, 0) {
        Some(Token::Comma) => {
            let rest = parse_call_args(toks, e.2 + 1, ast, fuel - 1);
            if !rest.0 {
                rest
            } else {
                let mut ids: Vec<usize> = Vec::new();
                ids.push(e.1);
                let mut i: usize = 0;
                while i < rest.1.len()
                    invariant
                        i <= rest.1@.len(),
                        ids@ == seq![e.1].add(rest.1@.subrange(0, i as int)),
                    decreases rest.1@.len() - i,
                {
                    ids.push(rest.1[i]);
                    assert(ids@ =~= seq![e.1].add(rest.1@.subrange(0, i + 1 as int)));
                    i = i + 1;
                }
                assert(ids@ =~= seq![e.1] + rest.1@);
                (true, ids, rest.2)
            }
        },
        _ => {
            let mut ids: Vec<usize> = Vec::new();
            ids.push(e.1);
            assert(ids@ =~= seq![e.1]);
            (true, ids, e.2)
        },
    }
}

/// Parse a struct literal; mirrors [`spec_parse_object`].
#[verifier::rlimit(80)]
fn parse_object(toks: &Vec<Span<Token>>, pos: usize, ast: &mut Ast, fuel: usize) -> (r: (
    bool,
    usize,
    usize,
))
    requires
        pos <= toks@.len(),
    ensures
        ({
            let s = spec_parse_object(toks@, pos as int, old(ast).view_s(), fuel as nat);
            &&& r.0 == s.ok
            &&& r.1 == s.node
            &&& r.2 as int == s.pos
            &&& final(ast).view_s() == s.ast
            &&& final(ast).syms@ == old(ast).syms@
            &&& final(ast).stmts@ == old(ast).stmts@
            &&& r.2 <= toks@.len()
        }),
    decreases fuel,
{
    let _n: usize = toks.len();
    if fuel == 0 {
        return (false, 0, pos);
    }
    match tok_get(toks, pos, 1) {
        Some(Token::LeftBrace) => {},
        _ => {
            let fp = if pos < toks.len() {
                pos + 1
            } else {
                toks.len()
            };
            return (false, 0, fp);
        },
    }
    let l = parse_obj_entries(toks, pos + 2, ast, fuel - 1);
    if !l.0 {
        return (false, 0, l.2);
    }
    match tok_get(toks, l.2, 0) {
        Some(Token::RightBrace) => {
            let lo = append_kids(ast, &l.1);
            let e = Expr::Object {
                struct_token: span_get(toks, pos),
                left_brace: span_get(toks, pos + 1),
                exprs_lo: lo,
                exprs_len: l.1.len(),
                right_brace: span_get(toks, l.2),
            };
            let sp = span_btw(toks, pos, l.2 + 1);
            let id = alloc_node(ast, e, sp);
            (true, id, l.2 + 1)
        },
        _ => (false, 0, l.2),
    }
}

/// Parse struct-literal entries; mirrors [`spec_parse_obj_entries`].
#[verifier::rlimit(80)]
fn parse_obj_entries(toks: &Vec<Span<Token>>, pos: usize, ast: &mut Ast, fuel: usize) -> (r: (
    bool,
    Vec<usize>,
    usize,
))
    requires
        pos <= toks@.len(),
    ensures
        ({
            let s = spec_parse_obj_entries(toks@, pos as int, old(ast).view_s(), fuel as nat);
            &&& r.0 == s.ok
            &&& r.1@ == s.ids
            &&& r.2 as int == s.pos
            &&& final(ast).view_s() == s.ast
            &&& final(ast).syms@ == old(ast).syms@
            &&& final(ast).stmts@ == old(ast).stmts@
            &&& r.2 <= toks@.len()
        }),
    decreases fuel,
{
    let _n: usize = toks.len();
    if fuel == 0 {
        let ids: Vec<usize> = Vec::new();
        assert(ids@ =~= Seq::<usize>::empty());
        return (false, ids, pos);
    }
    let t = tok_get(toks, pos, 0);
    match t {
        Some(Token::RightBrace) => {
            let ids: Vec<usize> = Vec::new();
            assert(ids@ =~= Seq::<usize>::empty());
            return (true, ids, pos);
        },
        _ => {},
    }
    let e: (bool, usize, usize) = match t {
        Some(Token::Fn) => parse_fn(toks, pos, ast, fuel - 1),
        Some(Token::Let) => parse_let(toks, pos, ast, fuel - 1),
        _ => (false, 0, pos),
    };
    if !e.0 {
        let ids: Vec<usize> = Vec::new();
        assert(ids@ =~= Seq::<usize>::empty());
        return (false, ids, e.2);
    }
    let rest = parse_obj_entries(toks, e.2, ast, fuel - 1);
    if !rest.0 {
        rest
    } else {
        let mut ids: Vec<usize> = Vec::new();
        ids.push(e.1);
        let mut i: usize = 0;
        while i < rest.1.len()
            invariant
                i <= rest.1@.len(),
                ids@ == seq![e.1].add(rest.1@.subrange(0, i as int)),
            decreases rest.1@.len() - i,
        {
            ids.push(rest.1[i]);
            assert(ids@ =~= seq![e.1].add(rest.1@.subrange(0, i + 1 as int)));
            i = i + 1;
        }
        assert(ids@ =~= seq![e.1] + rest.1@);
        (true, ids, rest.2)
    }
}

/// Parse a set literal; mirrors [`spec_parse_set`].
#[verifier::rlimit(80)]
fn parse_set(toks: &Vec<Span<Token>>, pos: usize, ast: &mut Ast, fuel: usize) -> (r: (
    bool,
    usize,
    usize,
))
    requires
        pos <= toks@.len(),
    ensures
        ({
            let s = spec_parse_set(toks@, pos as int, old(ast).view_s(), fuel as nat);
            &&& r.0 == s.ok
            &&& r.1 == s.node
            &&& r.2 as int == s.pos
            &&& final(ast).view_s() == s.ast
            &&& final(ast).syms@ == old(ast).syms@
            &&& final(ast).stmts@ == old(ast).stmts@
            &&& r.2 <= toks@.len()
        }),
    decreases fuel,
{
    let _n: usize = toks.len();
    if fuel == 0 {
        return (false, 0, pos);
    }
    match tok_get(toks, pos, 1) {
        Some(Token::LeftBrace) => {},
        _ => {
            let fp = if pos < toks.len() {
                pos + 1
            } else {
                toks.len()
            };
            return (false, 0, fp);
        },
    }
    let l = parse_set_elems(toks, pos + 2, ast, fuel - 1);
    if !l.0 {
        return (false, 0, l.2);
    }
    match tok_get(toks, l.2, 0) {
        Some(Token::RightBrace) => {
            let lo = append_kids(ast, &l.1);
            let e = Expr::SetLit {
                set_token: span_get(toks, pos),
                left_brace: span_get(toks, pos + 1),
                exprs_lo: lo,
                exprs_len: l.1.len(),
                right_brace: span_get(toks, l.2),
            };
            let sp = span_btw(toks, pos, l.2 + 1);
            let id = alloc_node(ast, e, sp);
            (true, id, l.2 + 1)
        },
        _ => (false, 0, l.2),
    }
}

/// Parse set-literal elements; mirrors [`spec_parse_set_elems`].
#[verifier::rlimit(80)]
fn parse_set_elems(toks: &Vec<Span<Token>>, pos: usize, ast: &mut Ast, fuel: usize) -> (r: (
    bool,
    Vec<usize>,
    usize,
))
    requires
        pos <= toks@.len(),
    ensures
        ({
            let s = spec_parse_set_elems(toks@, pos as int, old(ast).view_s(), fuel as nat);
            &&& r.0 == s.ok
            &&& r.1@ == s.ids
            &&& r.2 as int == s.pos
            &&& final(ast).view_s() == s.ast
            &&& final(ast).syms@ == old(ast).syms@
            &&& final(ast).stmts@ == old(ast).stmts@
            &&& r.2 <= toks@.len()
        }),
    decreases fuel,
{
    let _n: usize = toks.len();
    if fuel == 0 {
        let ids: Vec<usize> = Vec::new();
        assert(ids@ =~= Seq::<usize>::empty());
        return (false, ids, pos);
    }
    match tok_get(toks, pos, 0) {
        Some(Token::RightBrace) => {
            let ids: Vec<usize> = Vec::new();
            assert(ids@ =~= Seq::<usize>::empty());
            return (true, ids, pos);
        },
        _ => {},
    }
    let e = parse_expr(toks, pos, ast, fuel - 1);
    if !e.0 {
        let ids: Vec<usize> = Vec::new();
        assert(ids@ =~= Seq::<usize>::empty());
        return (false, ids, e.2);
    }
    match tok_get(toks, e.2, 0) {
        Some(Token::Comma) => {
            let rest = parse_set_elems(toks, e.2 + 1, ast, fuel - 1);
            if !rest.0 {
                rest
            } else {
                let mut ids: Vec<usize> = Vec::new();
                ids.push(e.1);
                let mut i: usize = 0;
                while i < rest.1.len()
                    invariant
                        i <= rest.1@.len(),
                        ids@ == seq![e.1].add(rest.1@.subrange(0, i as int)),
                    decreases rest.1@.len() - i,
                {
                    ids.push(rest.1[i]);
                    assert(ids@ =~= seq![e.1].add(rest.1@.subrange(0, i + 1 as int)));
                    i = i + 1;
                }
                assert(ids@ =~= seq![e.1] + rest.1@);
                (true, ids, rest.2)
            }
        },
        _ => {
            let mut ids: Vec<usize> = Vec::new();
            ids.push(e.1);
            assert(ids@ =~= seq![e.1]);
            (true, ids, e.2)
        },
    }
}

/// The position after the first `;` at or after `p`; mirrors
/// [`spec_sync_pos`].
fn sync_pos(toks: &Vec<Span<Token>>, p: usize) -> (r: usize)
    requires
        p <= toks@.len(),
    ensures
        r as int == spec_sync_pos(toks@, p as int),
        r <= toks@.len(),
{
    let mut i = p;
    while i < toks.len() && toks[i].0 != Token::Semi
        invariant
            p <= i <= toks@.len(),
            spec_sync_pos(toks@, p as int) == spec_sync_pos(toks@, i as int),
        decreases toks@.len() - i,
    {
        i = i + 1;
    }
    if i < toks.len() {
        i + 1
    } else {
        i
    }
}

/// The diagnostic span for a failure at `p`; mirrors [`spec_fail_span`].
fn fail_span(toks: &Vec<Span<Token>>, p: usize) -> (r: RawSpan)
    ensures
        r == spec_fail_span(toks@, p as int),
{
    if p < toks.len() {
        toks[p].1
    } else if toks.len() > 0 {
        let e = toks[toks.len() - 1].1.end;
        RawSpan { start: e, end: e }
    } else {
        RawSpan { start: 0, end: 0 }
    }
}

/// Consume the token sequence and produce the statement list of the program,
/// or, where statements are malformed, the diagnostics of all of them.
///
/// The tree is handed out only for a clean parse, the diagnostics exactly as
/// [`spec_parse_program`] collects them; `syms` is the symbol table the
/// tokens point into, which the tree takes ownership of.
#[verifier::rlimit(80)]
pub fn parser(toks: &Vec<Span<Token>>, syms: Vec<Vec<u8>>) -> (r: (Option<Ast>, Vec<Diag>))
    ensures
        ({
            let pr = spec_parse_program(
                toks@,
                0,
                AstS {
                    nodes: Seq::empty(),
                    kids: Seq::empty(),
                    params: Seq::empty(),
                    stmts: Seq::empty(),
                },
            );
            &&& r.1.deep_view() == pr.diags
            &&& (match r.0 {
                Option::Some(ast) => {
                    &&& pr.diags.len() == 0
                    &&& ast.view_s() == (AstS { stmts: pr.stmts, ..pr.ast })
                    &&& ast.syms@ == syms@
                },
                Option::None => pr.diags.len() > 0,
            })
        }),
{
    let mut ast = Ast {
        nodes: Vec::new(),
        kids: Vec::new(),
        params: Vec::new(),
        stmts: Vec::new(),
        syms,
    };
    let mut diags: Vec<Diag> = Vec::new();
    let mut stmts: Vec<usize> = Vec::new();
    let mut pos: usize = 0;
    let fuel: usize = if toks.len() > usize::MAX / 8 {
        usize::MAX
    } else {
        4 * toks.len() + 16
    };
    assert(fuel as nat == spec_prog_fuel(toks@.len() as nat));
    let ghost init_ast = ast.view_s();
    assert(init_ast =~= (AstS {
        nodes: Seq::empty(),
        kids: Seq::empty(),
        params: Seq::empty(),
        stmts: Seq::empty(),
    }));
    while pos < toks.len()
        invariant
            pos <= toks@.len(),
            fuel as nat == spec_prog_fuel(toks@.len() as nat),
            ast.syms@ == syms@,
            ast.stmts@ == Seq::<usize>::empty(),
            ({
                let total = spec_parse_program(toks@, 0, init_ast);
                let rest = spec_parse_program(toks@, pos as int, ast.view_s());
                &&& total.stmts == stmts@ + rest.stmts
                &&& total.ast == rest.ast
                &&& total.diags == diags.deep_view() + rest.diags
            }),
        decreases toks@.len() - pos,
    {
        let ghost pre_ast = ast.view_s();
        let ghost rest_pre = spec_parse_program(toks@, pos as int, pre_ast);
        let r = parse_stmt(toks, pos, &mut ast, fuel);
        let ghost s = spec_parse_stmt(toks@, pos as int, pre_ast, fuel as nat);
        if r.0 {
            stmts.push(r.1);
            let next = if r.2 <= pos {
                pos + 1
            } else {
                r.2
            };
            let ghost rest_post = spec_parse_program(toks@, next as int, ast.view_s());
            assert(stmts@ + rest_post.stmts =~= stmts@.drop_last() + (seq![r.1]
                + rest_post.stmts));
            pos = next;
        } else {
            let sp = fail_span(toks, r.2);
            let msg = crate::common::slice_to_vec("unexpected token".as_bytes());
            let d = Diag::new(sp, msg);
            diags.push(d);
            let from = if r.2 < pos {
                pos
            } else {
                r.2
            };
            let s0 = sync_pos(toks, from);
            let next = if s0 <= pos {
                pos + 1
            } else {
                s0
            };
            let ghost rest_post = spec_parse_program(toks@, next as int, ast.view_s());
            assert(diags.deep_view() =~= diags.deep_view().drop_last().push(d@));
            assert(diags.deep_view() + rest_post.diags =~= diags.deep_view().drop_last() + (
            seq![d@] + rest_post.diags));
            pos = next;
        }
    }
    proof {
        let total = spec_parse_program(toks@, 0, init_ast);
        assert(stmts@ =~= stmts@ + Seq::<usize>::empty());
        assert(diags.deep_view() =~= diags.deep_view() + Seq::<DiagV>::empty());
    }
    let ok = diags.len() == 0;
    if ok {
        let ghost done_ast = ast.view_s();
        assert(ast.stmts@ =~= stmts@.subrange(0, 0));
        let mut i: usize = 0;
        while i < stmts.len()
            invariant
                i <= stmts@.len(),
                ast.stmts@ == stmts@.subrange(0, i as int),
                ast.nodes@ == done_ast.nodes,
                ast.kids@ == done_ast.kids,
                ast.params@ == done_ast.params,
                ast.syms@ == syms@,
            decreases stmts@.len() - i,
        {
            ast.stmts.push(stmts[i]);
            assert(ast.stmts@ =~= stmts@.subrange(0, i + 1 as int));
            i = i + 1;
        }
        assert(ast.stmts@ =~= stmts@);
        (Some(ast), diags)
    } else {
        (None, diags)
    }
}

} // verus!
