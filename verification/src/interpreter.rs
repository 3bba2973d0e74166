//! The interpreter: a tree walk that evaluates each node to a value, a
//! `return` travelling to its caller, or a fatal runtime error.
//!
//! Every recursive step consumes one unit of an injectable budget, so an
//! embedding host can bound runaway scripts: a program that exceeds its
//! budget stops with a runtime error instead of spinning. Runtime errors are
//! fatal to the evaluation: the first one is returned, span-anchored, and
//! nothing further runs.

use vstd::prelude::*;
use crate::ast::{Ast, AstS, AtomLit, Expr};
use crate::display::{spec_render, render_value, sym_or_empty, sym_bytes, fields_at};
use crate::env::{Env, EnvS, spec_env_get, spec_env_has, spec_env_set, spec_frame_set};
use crate::literal::{
    HeapVal,
    HeapValS,
    Literal,
    bytes_at,
    res_view,
    spec_add,
    spec_sub,
    spec_mul,
    spec_div,
    spec_rem,
    spec_shl,
    spec_shr,
    spec_bitand,
    spec_bitor,
    spec_bitxor,
    spec_req,
    spec_rne,
    spec_ord,
    spec_neg,
    spec_not,
    spec_type_name,
};
use crate::span::{Diag, DiagV, RawSpan, Span};
use crate::text::spec_u64_digits;
use crate::token::syms_view;
use crate::common::push_bytes;
use crate::common::slice_to_vec;

verus! {

use vstd::string::StringSliceAdditionalSpecFns;

/// The outcome of evaluating one node: a value, a `return` in flight tagged
/// with the span of its statement, or a fatal runtime error.
pub enum Step {
    Val(Literal),
    Ret(Literal, RawSpan),
    Fault(Diag),
}

/// The mathematical image of a [`Step`].
pub enum StepV {
    Val(Literal),
    Ret(Literal, RawSpan),
    Fault(DiagV),
}

impl View for Step {
    type V = StepV;

    open spec fn view(&self) -> StepV {
        match self {
            Step::Val(v) => StepV::Val(*v),
            Step::Ret(v, sp) => StepV::Ret(*v, *sp),
            Step::Fault(d) => StepV::Fault(d@),
        }
    }
}

/// ``variable `x` does not exist``
pub open spec fn msg_not_exist(syms: Seq<Seq<u8>>, s: int) -> Seq<u8> {
    "variable `".spec_bytes() + sym_or_empty(syms, s) + "` does not exist".spec_bytes()
}

/// ``variable `x` already exists``
pub open spec fn msg_exists(syms: Seq<Seq<u8>>, s: int) -> Seq<u8> {
    "variable `".spec_bytes() + sym_or_empty(syms, s) + "` already exists".spec_bytes()
}

/// ``fn `f` doesn't return anything``
pub open spec fn msg_no_return(syms: Seq<Seq<u8>>, s: int) -> Seq<u8> {
    "fn `".spec_bytes() + sym_or_empty(syms, s) + "` doesn't return anything".spec_bytes()
}

/// ``fn `f` has a magic non-block body``
pub open spec fn msg_non_block(syms: Seq<Seq<u8>>, s: int) -> Seq<u8> {
    "fn `".spec_bytes() + sym_or_empty(syms, s) + "` has a magic non-block body".spec_bytes()
}

/// ``fn `f` expected N arguments but got M``
pub open spec fn msg_arity(syms: Seq<Seq<u8>>, s: int, want: nat, got: nat) -> Seq<u8> {
    "fn `".spec_bytes() + sym_or_empty(syms, s) + "` expected ".spec_bytes() + spec_u64_digits(
        want,
    ) + " arguments but got ".spec_bytes() + spec_u64_digits(got)
}

/// ``value V is already in this set``
pub open spec fn msg_dup(heap: Seq<HeapValS>, syms: Seq<Seq<u8>>, v: Literal) -> Seq<u8> {
    "value ".spec_bytes() + spec_render(heap, syms, v) + " is already in this set".spec_bytes()
}

/// ``value does not have an index `k` ``
pub open spec fn msg_no_index(key: Seq<u8>) -> Seq<u8> {
    "value does not have an index `".spec_bytes() + key + "`".spec_bytes()
}

/// ``cannot index with a value of type `t` ``
pub open spec fn msg_index_with(v: Literal) -> Seq<u8> {
    "cannot index with a value of type `".spec_bytes() + spec_type_name(v) + "`".spec_bytes()
}

/// ``cannot index into a value with type `t` ``
pub open spec fn msg_index_into(v: Literal) -> Seq<u8> {
    "cannot index into a value with type `".spec_bytes() + spec_type_name(v) + "`".spec_bytes()
}

/// An error step.
pub open spec fn verr(span: RawSpan, msg: Seq<u8>) -> StepV {
    StepV::Fault(DiagV { span, msg })
}

/// The span of a node, or a zero span for an index outside the arena.
pub open spec fn node_span(ast: AstS, id: int) -> RawSpan {
    if 0 <= id < ast.nodes.len() {
        ast.nodes[id].1
    } else {
        RawSpan { start: 0, end: 0 }
    }
}

/// The child node stored at index `j` of the shared child table, or one past
/// the arena (an always-invalid node) outside the table.
pub open spec fn kid_at(ast: AstS, j: int) -> int {
    if 0 <= j < ast.kids.len() {
        ast.kids[j] as int
    } else {
        ast.nodes.len() as int
    }
}

/// The classification of a binary operator node.
pub enum BinKind {
    Add,
    Sub,
    Mul,
    Div,
    Rem,
    Shl,
    Shr,
    BitAnd,
    BitOr,
    BitXor,
    Eq,
    Ne,
    Gt,
    Ge,
    Lt,
    Le,
}

/// The operator and operands of a binary node, if it is one.
pub open spec fn as_binary(e: Expr) -> Option<(BinKind, usize, usize)> {
    match e {
        Expr::Add { lhs, rhs, .. } => Option::Some((BinKind::Add, lhs, rhs)),
        Expr::Sub { lhs, rhs, .. } => Option::Some((BinKind::Sub, lhs, rhs)),
        Expr::Mul { lhs, rhs, .. } => Option::Some((BinKind::Mul, lhs, rhs)),
        Expr::Div { lhs, rhs, .. } => Option::Some((BinKind::Div, lhs, rhs)),
        Expr::Rem { lhs, rhs, .. } => Option::Some((BinKind::Rem, lhs, rhs)),
        Expr::Shl { lhs, rhs, .. } => Option::Some((BinKind::Shl, lhs, rhs)),
        Expr::Shr { lhs, rhs, .. } => Option::Some((BinKind::Shr, lhs, rhs)),
        Expr::And { lhs, rhs, .. } => Option::Some((BinKind::BitAnd, lhs, rhs)),
        Expr::Or { lhs, rhs, .. } => Option::Some((BinKind::BitOr, lhs, rhs)),
        Expr::Xor { lhs, rhs, .. } => Option::Some((BinKind::BitXor, lhs, rhs)),
        Expr::Eq { lhs, rhs, .. } => Option::Some((BinKind::Eq, lhs, rhs)),
        Expr::Ne { lhs, rhs, .. } => Option::Some((BinKind::Ne, lhs, rhs)),
        Expr::Gt { lhs, rhs, .. } => Option::Some((BinKind::Gt, lhs, rhs)),
        Expr::Ge { lhs, rhs, .. } => Option::Some((BinKind::Ge, lhs, rhs)),
        Expr::Lt { lhs, rhs, .. } => Option::Some((BinKind::Lt, lhs, rhs)),
        Expr::Le { lhs, rhs, .. } => Option::Some((BinKind::Le, lhs, rhs)),
        _ => Option::None,
    }
}

/// The operator, target and operand of a compound-assignment node.
pub open spec fn as_compound(e: Expr) -> Option<(BinKind, Span<usize>, usize)> {
    match e {
        Expr::AddAssign { ident, expr, .. } => Option::Some((BinKind::Add, ident, expr)),
        Expr::SubAssign { ident, expr, .. } => Option::Some((BinKind::Sub, ident, expr)),
        Expr::MulAssign { ident, expr, .. } => Option::Some((BinKind::Mul, ident, expr)),
        Expr::DivAssign { ident, expr, .. } => Option::Some((BinKind::Div, ident, expr)),
        Expr::RemAssign { ident, expr, .. } => Option::Some((BinKind::Rem, ident, expr)),
        Expr::ShlAssign { ident, expr, .. } => Option::Some((BinKind::Shl, ident, expr)),
        Expr::ShrAssign { ident, expr, .. } => Option::Some((BinKind::Shr, ident, expr)),
        Expr::AndAssign { ident, expr, .. } => Option::Some((BinKind::BitAnd, ident, expr)),
        Expr::OrAssign { ident, expr, .. } => Option::Some((BinKind::BitOr, ident, expr)),
        Expr::XorAssign { ident, expr, .. } => Option::Some((BinKind::BitXor, ident, expr)),
        _ => Option::None,
    }
}

/// Apply a binary operator to two values: the heap after (addition may
/// concatenate strings onto it) and the value or typed error message.
pub open spec fn spec_apply_bin(heap: Seq<HeapValS>, k: BinKind, a: Literal, b: Literal) -> (
    Seq<HeapValS>,
    Result<Literal, Seq<u8>>,
) {
    match k {
        BinKind::Add => spec_add(heap, a, b),
        BinKind::Sub => (heap, spec_sub(a, b)),
        BinKind::Mul => (heap, spec_mul(a, b)),
        BinKind::Div => (heap, spec_div(a, b)),
        BinKind::Rem => (heap, spec_rem(a, b)),
        BinKind::Shl => (heap, spec_shl(a, b)),
        BinKind::Shr => (heap, spec_shr(a, b)),
        BinKind::BitAnd => (heap, spec_bitand(a, b)),
        BinKind::BitOr => (heap, spec_bitor(a, b)),
        BinKind::BitXor => (heap, spec_bitxor(a, b)),
        BinKind::Eq => (heap, spec_req(heap, a, b)),
        BinKind::Ne => (heap, spec_rne(heap, a, b)),
        BinKind::Gt => (heap, spec_ord(a, ">".spec_bytes(), false, false, true, b)),
        BinKind::Ge => (heap, spec_ord(a, ">=".spec_bytes(), false, true, true, b)),
        BinKind::Lt => (heap, spec_ord(a, "<".spec_bytes(), true, false, false, b)),
        BinKind::Le => (heap, spec_ord(a, "<=".spec_bytes(), true, true, false, b)),
    }
}

/// Whether `v` duplicates one of `acc` under the language's value equality,
/// checked in order.
pub open spec fn spec_has_dup(
    heap: Seq<HeapValS>,
    acc: Seq<Literal>,
    v: Literal,
    j: int,
) -> bool
    decreases acc.len() - j,
{
    if j < 0 || j >= acc.len() {
        false
    } else if spec_req(heap, acc[j], v) == Result::<Literal, Seq<u8>>::Ok(
        Literal::Bool(true),
    ) {
        true
    } else {
        spec_has_dup(heap, acc, v, j + 1)
    }
}

/// The first field of `fields` whose name spells `key`, if any.
pub open spec fn spec_find_field(
    syms: Seq<Seq<u8>>,
    fields: Seq<(usize, Literal)>,
    key: Seq<u8>,
    j: int,
) -> Option<Literal>
    decreases fields.len() - j,
{
    if j < 0 || j >= fields.len() {
        Option::None
    } else if sym_or_empty(syms, fields[j].0 as int) == key {
        Option::Some(fields[j].1)
    } else {
        spec_find_field(syms, fields, key, j + 1)
    }
}

/// The frames after binding parameters `params[plo..plo+i]` to the first `i`
/// argument values in the current frame.
pub open spec fn spec_bind_params(
    frames: Seq<Seq<(usize, Literal)>>,
    params: Seq<Span<usize>>,
    plo: int,
    argv: Seq<Literal>,
    i: int,
) -> Seq<Seq<(usize, Literal)>>
    decreases i,
{
    if i <= 0 {
        frames
    } else {
        let prev = spec_bind_params(frames, params, plo, argv, i - 1);
        let k = if 0 <= plo + (i - 1) < params.len() {
            params[plo + (i - 1)].0
        } else {
            0
        };
        let v = if 0 <= i - 1 < argv.len() {
            argv[i - 1]
        } else {
            Literal::Nil
        };
        spec_env_set(prev, k, v)
    }
}

/// The result of evaluating one node: the state after, and the step.
pub struct EvalR {
    pub env: EnvS,
    pub step: StepV,
}

/// Evaluate the node `id` against `env`.
///
/// Every recursive call consumes one unit of `fuel`; an exhausted budget is
/// the runtime error that bounds runaway scripts.
pub open spec fn eval(ast: AstS, syms: Seq<Seq<u8>>, env: EnvS, id: int, fuel: nat) -> EvalR
    decreases fuel, 3int, 0int,
{
    if fuel == 0 {
        EvalR {
            env,
            step: verr(node_span(ast, id), "evaluation budget exhausted".spec_bytes()),
        }
    } else if id < 0 || id >= ast.nodes.len() {
        EvalR {
            env,
            step: verr(RawSpan { start: 0, end: 0 }, "unreachable state".spec_bytes()),
        }
    } else {
        let e = ast.nodes[id].0;
        let full = ast.nodes[id].1;
        if as_binary(e) is Some {
            let (k, lhs, rhs) = as_binary(e).unwrap();
            let ra = eval(ast, syms, env, lhs as int, (fuel - 1) as nat);
            match ra.step {
                StepV::Val(a) => {
                    let rb = eval(ast, syms, ra.env, rhs as int, (fuel - 1) as nat);
                    match rb.step {
                        StepV::Val(b) => {
                            let (heap2, res) = spec_apply_bin(rb.env.heap, k, a, b);
                            let env2 = EnvS { heap: heap2, ..rb.env };
                            match res {
                                Result::Ok(v) => EvalR { env: env2, step: StepV::Val(v) },
                                Result::Err(m) => EvalR { env: env2, step: verr(full, m) },
                            }
                        },
                        _ => rb,
                    }
                },
                _ => ra,
            }
        } else if as_compound(e) is Some {
            let (k, ident, expr) = as_compound(e).unwrap();
            match spec_env_get(env.frames, ident.0) {
                Option::None => EvalR {
                    env,
                    step: verr(ident.1, msg_not_exist(syms, ident.0 as int)),
                },
                Option::Some(lhs) => {
                    let rb = eval(ast, syms, env, expr as int, (fuel - 1) as nat);
                    match rb.step {
                        StepV::Val(rhs) => {
                            let (heap2, res) = spec_apply_bin(rb.env.heap, k, lhs, rhs);
                            let env2 = EnvS { heap: heap2, ..rb.env };
                            match res {
                                Result::Ok(v) => EvalR {
                                    env: EnvS { frames: spec_env_set(env2.frames, ident.0, v), ..env2 },
                                    step: StepV::Val(Literal::Nil),
                                },
                                Result::Err(m) => EvalR { env: env2, step: verr(full, m) },
                            }
                        },
                        _ => rb,
                    }
                },
            }
        } else {
            match e {
                Expr::Literal { value } => match value {
                    AtomLit::Bool(b) => EvalR { env, step: StepV::Val(Literal::Bool(b)) },
                    AtomLit::Integer(n) => EvalR { env, step: StepV::Val(Literal::Integer(n)) },
                    AtomLit::Str(s) => EvalR {
                        env: EnvS {
                            heap: env.heap.push(HeapValS::Buf(sym_or_empty(syms, s as int))),
                            ..env
                        },
                        step: StepV::Val(Literal::Str(env.heap.len() as usize)),
                    },
                    AtomLit::Nil => EvalR { env, step: StepV::Val(Literal::Nil) },
                },
                Expr::Access { ident } => match spec_env_get(env.frames, ident.0) {
                    Option::Some(v) => EvalR { env, step: StepV::Val(v) },
                    Option::None => EvalR {
                        env,
                        step: verr(ident.1, msg_not_exist(syms, ident.0 as int)),
                    },
                },
                Expr::Let { ident, expr, .. } => {
                    if spec_env_has(env.frames, ident.0) {
                        EvalR { env, step: verr(ident.1, msg_exists(syms, ident.0 as int)) }
                    } else {
                        let r = eval(ast, syms, env, expr as int, (fuel - 1) as nat);
                        match r.step {
                            StepV::Val(v) => {
                                if spec_env_has(r.env.frames, ident.0) {
                                    EvalR {
                                        env: r.env,
                                        step: verr(full, msg_exists(syms, ident.0 as int)),
                                    }
                                } else if r.env.frames.len() == 0 {
                                    EvalR { env: r.env, step: StepV::Val(Literal::Nil) }
                                } else {
                                    EvalR {
                                        env: EnvS {
                                            frames: r.env.frames.update(
                                                r.env.frames.len() - 1,
                                                r.env.frames.last().push((ident.0, v)),
                                            ),
                                            ..r.env
                                        },
                                        step: StepV::Val(Literal::Nil),
                                    }
                                }
                            },
                            _ => r,
                        }
                    }
                },
                Expr::Print { value, .. } => {
                    let r = eval(ast, syms, env, value as int, (fuel - 1) as nat);
                    match r.step {
                        StepV::Val(v) => EvalR {
                            env: EnvS {
                                stdout: r.env.stdout + spec_render(r.env.heap, syms, v),
                                ..r.env
                            },
                            step: StepV::Val(Literal::Nil),
                        },
                        _ => r,
                    }
                },
                Expr::Return { value, .. } => {
                    let r = eval(ast, syms, env, value as int, (fuel - 1) as nat);
                    match r.step {
                        StepV::Val(v) => EvalR { env: r.env, step: StepV::Ret(v, full) },
                        _ => r,
                    }
                },
                Expr::Group { expr, .. } => eval(ast, syms, env, expr as int, (fuel - 1) as nat),
                Expr::Block { exprs_lo, exprs_len, .. } => {
                    let env1 = EnvS {
                        frames: env.frames.push(Seq::empty()),
                        ..env
                    };
                    let r = eval_list(
                        ast,
                        syms,
                        env1,
                        exprs_lo as int,
                        exprs_len as int,
                        0,
                        (fuel - 1) as nat,
                    );
                    let env2 = EnvS {
                        frames: if r.env.frames.len() == 0 {
                            r.env.frames
                        } else {
                            r.env.frames.drop_last()
                        },
                        ..r.env
                    };
                    EvalR { env: env2, step: r.step }
                },
                Expr::If { condition, then, other, .. } => {
                    let rc = eval(ast, syms, env, condition as int, (fuel - 1) as nat);
                    match rc.step {
                        StepV::Val(c) => match c {
                            Literal::Bool(b) => {
                                if b {
                                    let rt = eval(ast, syms, rc.env, then as int, (fuel - 1) as nat);
                                    match rt.step {
                                        StepV::Val(_) => EvalR {
                                            env: rt.env,
                                            step: StepV::Val(Literal::Nil),
                                        },
                                        _ => rt,
                                    }
                                } else {
                                    match other {
                                        Option::Some(o) => {
                                            let ro = eval(
                                                ast,
                                                syms,
                                                rc.env,
                                                o as int,
                                                (fuel - 1) as nat,
                                            );
                                            match ro.step {
                                                StepV::Val(_) => EvalR {
                                                    env: ro.env,
                                                    step: StepV::Val(Literal::Nil),
                                                },
                                                _ => ro,
                                            }
                                        },
                                        Option::None => EvalR {
                                            env: rc.env,
                                            step: StepV::Val(Literal::Nil),
                                        },
                                    }
                                }
                            },
                            _ => EvalR {
                                env: rc.env,
                                step: verr(
                                    node_span(ast, condition as int),
                                    "condition of an `if` statement must be of type `bool`".spec_bytes(),
                                ),
                            },
                        },
                        _ => rc,
                    }
                },
                Expr::While { condition, then, .. } => {
                    let rc = eval(ast, syms, env, condition as int, (fuel - 1) as nat);
                    match rc.step {
                        StepV::Val(c) => match c {
                            Literal::Bool(b) => {
                                if b {
                                    let rt = eval(ast, syms, rc.env, then as int, (fuel - 1) as nat);
                                    match rt.step {
                                        StepV::Val(_) => eval(
                                            ast,
                                            syms,
                                            rt.env,
                                            id,
                                            (fuel - 1) as nat,
                                        ),
                                        _ => rt,
                                    }
                                } else {
                                    EvalR { env: rc.env, step: StepV::Val(Literal::Nil) }
                                }
                            },
                            _ => EvalR {
                                env: rc.env,
                                step: verr(
                                    node_span(ast, condition as int),
                                    "condition of an `while` statement must be of type `bool`".spec_bytes(),
                                ),
                            },
                        },
                        _ => rc,
                    }
                },
                Expr::FnDecl { name, args_lo, args_len, block, .. } => {
                    if spec_env_has(env.frames, name.0) {
                        EvalR { env, step: verr(full, msg_exists(syms, name.0 as int)) }
                    } else if env.frames.len() == 0 {
                        EvalR { env, step: StepV::Val(Literal::Nil) }
                    } else {
                        let f = Literal::Fn {
                            name: name.0,
                            name_span: name.1,
                            args_lo,
                            args_len,
                            body: block,
                        };
                        EvalR {
                            env: EnvS {
                                frames: env.frames.update(
                                    env.frames.len() - 1,
                                    env.frames.last().push((name.0, f)),
                                ),
                                ..env
                            },
                            step: StepV::Val(Literal::Nil),
                        }
                    }
                },
                Expr::Assign { ident, expr, .. } => {
                    if !spec_env_has(env.frames, ident.0) {
                        EvalR { env, step: verr(ident.1, msg_not_exist(syms, ident.0 as int)) }
                    } else {
                        let r = eval(ast, syms, env, expr as int, (fuel - 1) as nat);
                        match r.step {
                            StepV::Val(v) => EvalR {
                                env: EnvS {
                                    frames: spec_env_set(r.env.frames, ident.0, v),
                                    ..r.env
                                },
                                step: StepV::Val(Literal::Nil),
                            },
                            _ => r,
                        }
                    }
                },
                Expr::Not { expr, .. } => {
                    let r = eval(ast, syms, env, expr as int, (fuel - 1) as nat);
                    match r.step {
                        StepV::Val(v) => match spec_not(v) {
                            Result::Ok(w) => EvalR { env: r.env, step: StepV::Val(w) },
                            Result::Err(m) => EvalR { env: r.env, step: verr(full, m) },
                        },
                        _ => r,
                    }
                },
                Expr::Neg { expr, .. } => {
                    let r = eval(ast, syms, env, expr as int, (fuel - 1) as nat);
                    match r.step {
                        StepV::Val(v) => match spec_neg(v) {
                            Result::Ok(w) => EvalR { env: r.env, step: StepV::Val(w) },
                            Result::Err(m) => EvalR { env: r.env, step: verr(full, m) },
                        },
                        _ => r,
                    }
                },
                Expr::FnCall { access, args_lo, args_len, .. } => eval_call(
                    ast,
                    syms,
                    env,
                    access as int,
                    args_lo as int,
                    args_len as int,
                    (fuel - 1) as nat,
                ),
                Expr::Object { exprs_lo, exprs_len, .. } => {
                    let r = eval_obj(
                        ast,
                        syms,
                        env,
                        exprs_lo as int,
                        exprs_len as int,
                        0,
                        Seq::empty(),
                        (fuel - 1) as nat,
                    );
                    match r.step {
                        StepV::Val(_) => EvalR {
                            env: EnvS {
                                heap: r.env.heap.push(HeapValS::Obj(r.fields)),
                                ..r.env
                            },
                            step: StepV::Val(Literal::Object(r.env.heap.len() as usize)),
                        },
                        _ => EvalR { env: r.env, step: r.step },
                    }
                },
                Expr::SetLit { exprs_lo, exprs_len, .. } => {
                    let r = eval_set(
                        ast,
                        syms,
                        env,
                        exprs_lo as int,
                        exprs_len as int,
                        0,
                        Seq::empty(),
                        (fuel - 1) as nat,
                    );
                    match r.step {
                        StepV::Val(_) => EvalR {
                            env: EnvS {
                                heap: r.env.heap.push(HeapValS::Elems(r.elems)),
                                ..r.env
                            },
                            step: StepV::Val(Literal::SetVal(r.env.heap.len() as usize)),
                        },
                        _ => EvalR { env: r.env, step: r.step },
                    }
                },
                Expr::Chain { parent, child } => {
                    let rp = eval(ast, syms, env, parent as int, (fuel - 1) as nat);
                    match rp.step {
                        StepV::Val(p) => match p {
                            Literal::Object(h) => {
                                let rcv = eval(ast, syms, rp.env, child as int, (fuel - 1) as nat);
                                match rcv.step {
                                    StepV::Val(c) => match c {
                                        Literal::Str(hs) => {
                                            let key = bytes_at(rcv.env.heap, hs as int);
                                            match spec_find_field(
                                                syms,
                                                fields_at(rcv.env.heap, h as int),
                                                key,
                                                0,
                                            ) {
                                                Option::Some(v) => EvalR {
                                                    env: rcv.env,
                                                    step: StepV::Val(v),
                                                },
                                                Option::None => EvalR {
                                                    env: rcv.env,
                                                    step: verr(
                                                        node_span(ast, child as int),
                                                        msg_no_index(key),
                                                    ),
                                                },
                                            }
                                        },
                                        _ => EvalR {
                                            env: rcv.env,
                                            step: verr(
                                                node_span(ast, child as int),
                                                msg_index_with(c),
                                            ),
                                        },
                                    },
                                    _ => rcv,
                                }
                            },
                            _ => EvalR {
                                env: rp.env,
                                step: verr(node_span(ast, parent as int), msg_index_into(p)),
                            },
                        },
                        _ => rp,
                    }
                },
                Expr::Error(ve) => EvalR { env, step: verr(full, ve.spec_message()) },
                _ => EvalR {
                    env,
                    step: verr(full, "unreachable state".spec_bytes()),
                },
            }
        }
    }
}

/// Whether a node is a `return` statement.
pub open spec fn is_return_node(ast: AstS, id: int) -> bool {
    0 <= id < ast.nodes.len() && (ast.nodes[id].0 matches Expr::Return { .. })
}

/// Evaluate the statements `kids[lo + i .. lo + len]` of a block in order.
///
/// A completed list yields the none value. A `return` statement standing
/// directly in the list with statements after it is the
/// unreachable-statement error; a return that surfaced out of a nested
/// construct simply ends the list and travels on.
pub open spec fn eval_list(
    ast: AstS,
    syms: Seq<Seq<u8>>,
    env: EnvS,
    lo: int,
    len: int,
    i: int,
    fuel: nat,
) -> EvalR
    decreases fuel, 2int, len - i,
{
    if i >= len {
        EvalR { env, step: StepV::Val(Literal::Nil) }
    } else if fuel == 0 {
        EvalR {
            env,
            step: verr(
                node_span(ast, kid_at(ast, lo + i)),
                "evaluation budget exhausted".spec_bytes(),
            ),
        }
    } else {
        let r = eval(ast, syms, env, kid_at(ast, lo + i), (fuel - 1) as nat);
        match r.step {
            StepV::Val(_) => eval_list(ast, syms, r.env, lo, len, i + 1, (fuel - 1) as nat),
            StepV::Ret(v, sp) => {
                if i + 1 < len && is_return_node(ast, kid_at(ast, lo + i)) {
                    EvalR {
                        env: r.env,
                        step: verr(
                            node_span(ast, kid_at(ast, lo + i + 1)),
                            "statement after `return` is never reached".spec_bytes(),
                        ),
                    }
                } else {
                    EvalR { env: r.env, step: StepV::Ret(v, sp) }
                }
            },
            StepV::Fault(d) => EvalR { env: r.env, step: StepV::Fault(d) },
        }
    }
}

/// The result of evaluating an argument list: the state after, the values in
/// order, and the step (a value step means success).
pub struct ArgsR {
    pub env: EnvS,
    pub vals: Seq<Literal>,
    pub step: StepV,
}

/// Evaluate the call arguments `kids[lo + i .. lo + len]` in the caller's
/// scope, collecting their values.
pub open spec fn eval_args(
    ast: AstS,
    syms: Seq<Seq<u8>>,
    env: EnvS,
    lo: int,
    len: int,
    i: int,
    acc: Seq<Literal>,
    fuel: nat,
) -> ArgsR
    decreases fuel, 2int, len - i,
{
    if i >= len {
        ArgsR { env, vals: acc, step: StepV::Val(Literal::Nil) }
    } else if fuel == 0 {
        ArgsR {
            env,
            vals: acc,
            step: verr(
                node_span(ast, kid_at(ast, lo + i)),
                "evaluation budget exhausted".spec_bytes(),
            ),
        }
    } else {
        let r = eval(ast, syms, env, kid_at(ast, lo + i), (fuel - 1) as nat);
        match r.step {
            StepV::Val(v) => eval_args(
                ast,
                syms,
                r.env,
                lo,
                len,
                i + 1,
                acc.push(v),
                (fuel - 1) as nat,
            ),
            _ => ArgsR { env: r.env, vals: acc, step: r.step },
        }
    }
}

/// Evaluate a function call: the callee, then the arity check, then the
/// arguments in the caller's scope, then the body in a fresh frame.
///
/// The return value travels back as a control-flow outcome of the body — one
/// result slot per call — so recursive calls cannot collide.
pub open spec fn eval_call(
    ast: AstS,
    syms: Seq<Seq<u8>>,
    env: EnvS,
    access: int,
    lo: int,
    len: int,
    fuel: nat,
) -> EvalR
    decreases fuel, 3int, 0int,
{
    if fuel == 0 {
        EvalR {
            env,
            step: verr(node_span(ast, access), "evaluation budget exhausted".spec_bytes()),
        }
    } else {
        let rf = eval(ast, syms, env, access, (fuel - 1) as nat);
        match rf.step {
            StepV::Val(fv) => match fv {
                Literal::Fn { name, name_span, args_lo: plo, args_len: plen, body } => {
                    if len > plen {
                        EvalR {
                            env: rf.env,
                            step: verr(
                                RawSpan {
                                    start: node_span(ast, kid_at(ast, lo + plen)).start,
                                    end: node_span(ast, kid_at(ast, lo + len - 1)).end,
                                },
                                msg_arity(syms, name as int, plen as nat, len as nat),
                            ),
                        }
                    } else {
                        let ra = eval_args(
                            ast,
                            syms,
                            rf.env,
                            lo,
                            len,
                            0,
                            Seq::empty(),
                            (fuel - 1) as nat,
                        );
                        match ra.step {
                            StepV::Val(_) => {
                                if len < plen {
                                    EvalR {
                                        env: ra.env,
                                        step: verr(
                                            name_span,
                                            msg_arity(syms, name as int, plen as nat, len as nat),
                                        ),
                                    }
                                } else {
                                    match node_body_block(ast, body as int) {
                                        Option::Some((blo, blen)) => {
                                            let env1 = EnvS {
                                                frames: ra.env.frames.push(Seq::empty()),
                                                ..ra.env
                                            };
                                            let env2 = EnvS {
                                                frames: spec_bind_params(
                                                    env1.frames,
                                                    ast.params,
                                                    plo as int,
                                                    ra.vals,
                                                    plen as int,
                                                ),
                                                ..env1
                                            };
                                            let rb = eval_list(
                                                ast,
                                                syms,
                                                env2,
                                                blo,
                                                blen,
                                                0,
                                                (fuel - 1) as nat,
                                            );
                                            let env3 = EnvS {
                                                frames: if rb.env.frames.len() == 0 {
                                                    rb.env.frames
                                                } else {
                                                    rb.env.frames.drop_last()
                                                },
                                                ..rb.env
                                            };
                                            match rb.step {
                                                StepV::Val(_) => EvalR {
                                                    env: env3,
                                                    step: verr(
                                                        name_span,
                                                        msg_no_return(syms, name as int),
                                                    ),
                                                },
                                                StepV::Ret(v, _) => EvalR {
                                                    env: env3,
                                                    step: StepV::Val(v),
                                                },
                                                StepV::Fault(d) => EvalR {
                                                    env: env3,
                                                    step: StepV::Fault(d),
                                                },
                                            }
                                        },
                                        Option::None => EvalR {
                                            env: ra.env,
                                            step: verr(
                                                node_span(ast, body as int),
                                                msg_non_block(syms, name as int),
                                            ),
                                        },
                                    }
                                }
                            },
                            _ => EvalR { env: ra.env, step: ra.step },
                        }
                    }
                },
                _ => EvalR {
                    env: rf.env,
                    step: verr(
                        node_span(ast, access),
                        "value is not a function".spec_bytes(),
                    ),
                },
            },
            _ => rf,
        }
    }
}

/// The statement list of a body node, when the body is a block.
pub open spec fn node_body_block(ast: AstS, body: int) -> Option<(int, int)> {
    if 0 <= body < ast.nodes.len() {
        match ast.nodes[body].0 {
            Expr::Block { exprs_lo, exprs_len, .. } => Option::Some(
                (exprs_lo as int, exprs_len as int),
            ),
            _ => Option::None,
        }
    } else {
        Option::None
    }
}

/// The result of evaluating struct-literal entries.
pub struct ObjR {
    pub env: EnvS,
    pub fields: Seq<(usize, Literal)>,
    pub step: StepV,
}

/// Evaluate the entries of a struct literal into a field list; a later entry
/// with the same name overwrites the earlier one.
pub open spec fn eval_obj(
    ast: AstS,
    syms: Seq<Seq<u8>>,
    env: EnvS,
    lo: int,
    len: int,
    i: int,
    acc: Seq<(usize, Literal)>,
    fuel: nat,
) -> ObjR
    decreases fuel, 2int, len - i,
{
    if i >= len {
        ObjR { env, fields: acc, step: StepV::Val(Literal::Nil) }
    } else if fuel == 0 {
        ObjR {
            env,
            fields: acc,
            step: verr(
                node_span(ast, kid_at(ast, lo + i)),
                "evaluation budget exhausted".spec_bytes(),
            ),
        }
    } else {
        let nid = kid_at(ast, lo + i);
        let entry = if 0 <= nid < ast.nodes.len() {
            ast.nodes[nid].0
        } else {
            Expr::Error(crate::common::VeaErr::IntegerOverflow)
        };
        match entry {
            Expr::Let { ident, expr, .. } => {
                let r = eval(ast, syms, env, expr as int, (fuel - 1) as nat);
                match r.step {
                    StepV::Val(v) => eval_obj(
                        ast,
                        syms,
                        r.env,
                        lo,
                        len,
                        i + 1,
                        spec_frame_set(acc, ident.0, v),
                        (fuel - 1) as nat,
                    ),
                    _ => ObjR { env: r.env, fields: acc, step: r.step },
                }
            },
            Expr::FnDecl { name, args_lo, args_len, block, .. } => {
                let f = Literal::Fn {
                    name: name.0,
                    name_span: name.1,
                    args_lo,
                    args_len,
                    body: block,
                };
                eval_obj(
                    ast,
                    syms,
                    env,
                    lo,
                    len,
                    i + 1,
                    spec_frame_set(acc, name.0, f),
                    (fuel - 1) as nat,
                )
            },
            _ => ObjR {
                env,
                fields: acc,
                step: verr(node_span(ast, nid), "unreachable state".spec_bytes()),
            },
        }
    }
}

/// The result of evaluating set-literal elements.
pub struct SetR {
    pub env: EnvS,
    pub elems: Seq<Literal>,
    pub step: StepV,
}

/// Evaluate the elements of a set literal in order, rejecting an element
/// equal to any element already evaluated.
pub open spec fn eval_set(
    ast: AstS,
    syms: Seq<Seq<u8>>,
    env: EnvS,
    lo: int,
    len: int,
    i: int,
    acc: Seq<Literal>,
    fuel: nat,
) -> SetR
    decreases fuel, 2int, len - i,
{
    if i >= len {
        SetR { env, elems: acc, step: StepV::Val(Literal::Nil) }
    } else if fuel == 0 {
        SetR {
            env,
            elems: acc,
            step: verr(
                node_span(ast, kid_at(ast, lo + i)),
                "evaluation budget exhausted".spec_bytes(),
            ),
        }
    } else {
        let r = eval(ast, syms, env, kid_at(ast, lo + i), (fuel - 1) as nat);
        match r.step {
            StepV::Val(v) => {
                if spec_has_dup(r.env.heap, acc, v, 0) {
                    SetR {
                        env: r.env,
                        elems: acc,
                        step: verr(
                            node_span(ast, kid_at(ast, lo + i)),
                            msg_dup(r.env.heap, syms, v),
                        ),
                    }
                } else {
                    eval_set(ast, syms, r.env, lo, len, i + 1, acc.push(v), (fuel - 1) as nat)
                }
            },
            _ => SetR { env: r.env, elems: acc, step: r.step },
        }
    }
}

/// ``variable `x` does not exist``; mirrors [`msg_not_exist`].
fn m_not_exist(syms: &Vec<Vec<u8>>, s: usize) -> (r: Vec<u8>)
    ensures
        r@ == msg_not_exist(syms_view(syms@), s as int),
{
    let mut m = slice_to_vec("variable `".as_bytes());
    let n = sym_bytes(syms, s);
    push_bytes(&mut m, n.as_slice());
    push_bytes(&mut m, "` does not exist".as_bytes());
    assert(m@ =~= msg_not_exist(syms_view(syms@), s as int));
    m
}

/// ``variable `x` already exists``; mirrors [`msg_exists`].
fn m_exists(syms: &Vec<Vec<u8>>, s: usize) -> (r: Vec<u8>)
    ensures
        r@ == msg_exists(syms_view(syms@), s as int),
{
    let mut m = slice_to_vec("variable `".as_bytes());
    let n = sym_bytes(syms, s);
    push_bytes(&mut m, n.as_slice());
    push_bytes(&mut m, "` already exists".as_bytes());
    assert(m@ =~= msg_exists(syms_view(syms@), s as int));
    m
}

/// ``fn `f` doesn't return anything``; mirrors [`msg_no_return`].
fn m_no_return(syms: &Vec<Vec<u8>>, s: usize) -> (r: Vec<u8>)
    ensures
        r@ == msg_no_return(syms_view(syms@), s as int),
{
    let mut m = slice_to_vec("fn `".as_bytes());
    let n = sym_bytes(syms, s);
    push_bytes(&mut m, n.as_slice());
    push_bytes(&mut m, "` doesn't return anything".as_bytes());
    assert(m@ =~= msg_no_return(syms_view(syms@), s as int));
    m
}

/// ``fn `f` has a magic non-block body``; mirrors [`msg_non_block`].
fn m_non_block(syms: &Vec<Vec<u8>>, s: usize) -> (r: Vec<u8>)
    ensures
        r@ == msg_non_block(syms_view(syms@), s as int),
{
    let mut m = slice_to_vec("fn `".as_bytes());
    let n = sym_bytes(syms, s);
    push_bytes(&mut m, n.as_slice());
    push_bytes(&mut m, "` has a magic non-block body".as_bytes());
    assert(m@ =~= msg_non_block(syms_view(syms@), s as int));
    m
}

/// ``fn `f` expected N arguments but got M``; mirrors [`msg_arity`].
fn m_arity(syms: &Vec<Vec<u8>>, s: usize, want: usize, got: usize) -> (r: Vec<u8>)
    ensures
        r@ == msg_arity(syms_view(syms@), s as int, want as nat, got as nat),
{
    let mut m = slice_to_vec("fn `".as_bytes());
    let n = sym_bytes(syms, s);
    push_bytes(&mut m, n.as_slice());
    push_bytes(&mut m, "` expected ".as_bytes());
    let w = crate::text::u64_digits(want as u64);
    push_bytes(&mut m, w.as_slice());
    push_bytes(&mut m, " arguments but got ".as_bytes());
    let g = crate::text::u64_digits(got as u64);
    push_bytes(&mut m, g.as_slice());
    assert(m@ =~= msg_arity(syms_view(syms@), s as int, want as nat, got as nat));
    m
}

/// ``value V is already in this set``; mirrors [`msg_dup`].
fn m_dup(heap: &Vec<HeapVal>, syms: &Vec<Vec<u8>>, v: &Literal) -> (r: Vec<u8>)
    ensures
        r@ == msg_dup(heap.deep_view(), syms_view(syms@), *v),
{
    let mut m = slice_to_vec("value ".as_bytes());
    let t = render_value(heap, syms, v);
    push_bytes(&mut m, t.as_slice());
    push_bytes(&mut m, " is already in this set".as_bytes());
    assert(m@ =~= msg_dup(heap.deep_view(), syms_view(syms@), *v));
    m
}

/// ``value does not have an index `k` ``; mirrors [`msg_no_index`].
fn m_no_index(key: &Vec<u8>) -> (r: Vec<u8>)
    ensures
        r@ == msg_no_index(key@),
{
    let mut m = slice_to_vec("value does not have an index `".as_bytes());
    push_bytes(&mut m, key.as_slice());
    push_bytes(&mut m, "`".as_bytes());
    assert(m@ =~= msg_no_index(key@));
    m
}

/// ``cannot index with a value of type `t` ``; mirrors [`msg_index_with`].
fn m_index_with(v: &Literal) -> (r: Vec<u8>)
    ensures
        r@ == msg_index_with(*v),
{
    let mut m = slice_to_vec("cannot index with a value of type `".as_bytes());
    let t = crate::literal::type_name_bytes(v);
    push_bytes(&mut m, t.as_slice());
    push_bytes(&mut m, "`".as_bytes());
    assert(m@ =~= msg_index_with(*v));
    m
}

/// ``cannot index into a value with type `t` ``; mirrors [`msg_index_into`].
fn m_index_into(v: &Literal) -> (r: Vec<u8>)
    ensures
        r@ == msg_index_into(*v),
{
    let mut m = slice_to_vec("cannot index into a value with type `".as_bytes());
    let t = crate::literal::type_name_bytes(v);
    push_bytes(&mut m, t.as_slice());
    push_bytes(&mut m, "`".as_bytes());
    assert(m@ =~= msg_index_into(*v));
    m
}

/// The span of a node; mirrors [`node_span`].
fn node_span_x(ast: &Ast, id: usize) -> (r: RawSpan)
    ensures
        r == node_span(ast.view_s(), id as int),
{
    if id < ast.nodes.len() {
        ast.nodes[id].1
    } else {
        RawSpan { start: 0, end: 0 }
    }
}

/// The child node at offset `i` of the list starting at `lo`; mirrors
/// [`kid_at`] applied to `lo + i`.
pub fn kid_get(ast: &Ast, lo: usize, i: usize) -> (r: usize)
    ensures
        r as int == kid_at(ast.view_s(), lo as int + i as int),
{
    if lo < ast.kids.len() && ast.kids.len() - lo > i {
        ast.kids[lo + i]
    } else {
        ast.nodes.len()
    }
}

/// Classify a binary operator node; mirrors [`as_binary`].
pub fn as_binary_x(e: &Expr) -> (r: Option<(BinKind, usize, usize)>)
    ensures
        r == as_binary(*e),
{
    match e {
        Expr::Add { lhs, rhs, .. } => Some((BinKind::Add, *lhs, *rhs)),
        Expr::Sub { lhs, rhs, .. } => Some((BinKind::Sub, *lhs, *rhs)),
        Expr::Mul { lhs, rhs, .. } => Some((BinKind::Mul, *lhs, *rhs)),
        Expr::Div { lhs, rhs, .. } => Some((BinKind::Div, *lhs, *rhs)),
        Expr::Rem { lhs, rhs, .. } => Some((BinKind::Rem, *lhs, *rhs)),
        Expr::Shl { lhs, rhs, .. } => Some((BinKind::Shl, *lhs, *rhs)),
        Expr::Shr { lhs, rhs, .. } => Some((BinKind::Shr, *lhs, *rhs)),
        Expr::And { lhs, rhs, .. } => Some((BinKind::BitAnd, *lhs, *rhs)),
        Expr::Or { lhs, rhs, .. } => Some((BinKind::BitOr, *lhs, *rhs)),
        Expr::Xor { lhs, rhs, .. } => Some((BinKind::BitXor, *lhs, *rhs)),
        Expr::Eq { lhs, rhs, .. } => Some((BinKind::Eq, *lhs, *rhs)),
        Expr::Ne { lhs, rhs, .. } => Some((BinKind::Ne, *lhs, *rhs)),
        Expr::Gt { lhs, rhs, .. } => Some((BinKind::Gt, *lhs, *rhs)),
        Expr::Ge { lhs, rhs, .. } => Some((BinKind::Ge, *lhs, *rhs)),
        Expr::Lt { lhs, rhs, .. } => Some((BinKind::Lt, *lhs, *rhs)),
        Expr::Le { lhs, rhs, .. } => Some((BinKind::Le, *lhs, *rhs)),
        _ => None,
    }
}

/// Classify a compound-assignment node; mirrors [`as_compound`].
pub fn as_compound_x(e: &Expr) -> (r: Option<(BinKind, Span<usize>, usize)>)
    ensures
        r == as_compound(*e),
{
    match e {
        Expr::AddAssign { ident, expr, .. } => Some((BinKind::Add, *ident, *expr)),
        Expr::SubAssign { ident, expr, .. } => Some((BinKind::Sub, *ident, *expr)),
        Expr::MulAssign { ident, expr, .. } => Some((BinKind::Mul, *ident, *expr)),
        Expr::DivAssign { ident, expr, .. } => Some((BinKind::Div, *ident, *expr)),
        Expr::RemAssign { ident, expr, .. } => Some((BinKind::Rem, *ident, *expr)),
        Expr::ShlAssign { ident, expr, .. } => Some((BinKind::Shl, *ident, *expr)),
        Expr::ShrAssign { ident, expr, .. } => Some((BinKind::Shr, *ident, *expr)),
        Expr::AndAssign { ident, expr, .. } => Some((BinKind::BitAnd, *ident, *expr)),
        Expr::OrAssign { ident, expr, .. } => Some((BinKind::BitOr, *ident, *expr)),
        Expr::XorAssign { ident, expr, .. } => Some((BinKind::BitXor, *ident, *expr)),
        _ => None,
    }
}

/// Apply a binary operator; mirrors [`spec_apply_bin`].
fn apply_bin(env: &mut Env, k: BinKind, a: Literal, b: Literal) -> (r: Result<Literal, Vec<u8>>)
    ensures
        ({
            let sr = spec_apply_bin(old(env).view_s().heap, k, a, b);
            &&& final(env).view_s().heap == sr.0
            &&& final(env).view_s().frames == old(env).view_s().frames
            &&& final(env).view_s().stdout == old(env).view_s().stdout
            &&& res_view(r) == sr.1
        }),
{
    match k {
        BinKind::Add => a.add(b, env),
        BinKind::Sub => a.sub(b),
        BinKind::Mul => a.mul(b),
        BinKind::Div => a.div(b),
        BinKind::Rem => a.rem(b),
        BinKind::Shl => a.shl(b),
        BinKind::Shr => a.shr(b),
        BinKind::BitAnd => a.bitand(b),
        BinKind::BitOr => a.bitor(b),
        BinKind::BitXor => a.bitxor(b),
        BinKind::Eq => a.req(b, env),
        BinKind::Ne => a.rne(b, env),
        BinKind::Gt => a.rgt(b),
        BinKind::Ge => a.rge(b),
        BinKind::Lt => a.rlt(b),
        BinKind::Le => a.rle(b),
    }
}

/// Whether `v` duplicates an element of `acc`; mirrors [`spec_has_dup`].
fn has_dup_x(env: &Env, acc: &Vec<Literal>, v: Literal, j: usize) -> (r: bool)
    requires
        j <= acc@.len(),
    ensures
        r == spec_has_dup(env.view_s().heap, acc@, v, j as int),
    decreases acc@.len() - j,
{
    if j >= acc.len() {
        false
    } else {
        let q = acc[j].req(v, env);
        let hit = match q {
            Ok(Literal::Bool(true)) => true,
            _ => false,
        };
        if hit {
            true
        } else {
            has_dup_x(env, acc, v, j + 1)
        }
    }
}

/// Find the field named by `key`; mirrors [`spec_find_field`].
fn find_field_x(
    syms: &Vec<Vec<u8>>,
    fields: &Vec<(usize, Literal)>,
    key: &Vec<u8>,
    j: usize,
) -> (r: Option<Literal>)
    requires
        j <= fields@.len(),
    ensures
        r == spec_find_field(syms_view(syms@), fields@, key@, j as int),
    decreases fields@.len() - j,
{
    if j >= fields.len() {
        None
    } else {
        let nm = sym_bytes(syms, fields[j].0);
        if crate::common::slice_eq(nm.as_slice(), key.as_slice()) {
            Some(fields[j].1)
        } else {
            find_field_x(syms, fields, key, j + 1)
        }
    }
}

/// Bind parameters to argument values in the current frame; mirrors
/// [`spec_bind_params`].
fn bind_params_x(env: &mut Env, ast: &Ast, plo: usize, argv: &Vec<Literal>, n: usize)
    ensures
        final(env).view_s().frames == spec_bind_params(
            old(env).view_s().frames,
            ast.params@,
            plo as int,
            argv@,
            n as int,
        ),
        final(env).view_s().heap == old(env).view_s().heap,
        final(env).view_s().stdout == old(env).view_s().stdout,
{
    let mut i: usize = 0;
    while i < n
        invariant
            i <= n,
            env.view_s().frames == spec_bind_params(
                old(env).view_s().frames,
                ast.params@,
                plo as int,
                argv@,
                i as int,
            ),
            env.view_s().heap == old(env).view_s().heap,
            env.view_s().stdout == old(env).view_s().stdout,
        decreases n - i,
    {
        let k: usize = if plo < ast.params.len() && ast.params.len() - plo > i {
            ast.params[plo + i].0
        } else {
            0
        };
        let v: Literal = if i < argv.len() {
            argv[i]
        } else {
            Literal::Nil
        };
        env.set(k, v);
        i = i + 1;
    }
}

/// Evaluate one node against the environment; mirrors [`eval`].
#[verifier::rlimit(100)]
pub fn interp(ast: &Ast, env: &mut Env, id: usize, fuel: usize) -> (r: Step)
    ensures
        ({
            let er = eval(ast.view_s(), syms_view(ast.syms@), old(env).view_s(), id as int, fuel as nat);
            &&& final(env).view_s() == er.env
            &&& r@ == er.step
        }),
    decreases fuel, 3int, 0int,
{
    if fuel == 0 {
        let sp = node_span_x(ast, id);
        return Step::Fault(Diag::new(sp, slice_to_vec("evaluation budget exhausted".as_bytes())));
    }
    if id >= ast.nodes.len() {
        return Step::Fault(
            Diag::new(RawSpan { start: 0, end: 0 }, slice_to_vec("unreachable state".as_bytes())),
        );
    }
    let node = ast.nodes[id];
    let e = node.0;
    let full = node.1;
    match as_binary_x(&e) {
        Some((k, lhs, rhs)) => {
            let ra = interp(ast, env, lhs, fuel - 1);
            match ra {
                Step::Val(a) => {
                    let rb = interp(ast, env, rhs, fuel - 1);
                    match rb {
                        Step::Val(b) => {
                            match apply_bin(env, k, a, b) {
                                Ok(v) => Step::Val(v),
                                Err(m) => Step::Fault(Diag::new(full, m)),
                            }
                        },
                        _ => rb,
                    }
                },
                _ => ra,
            }
        },
        None => {
            match as_compound_x(&e) {
                Some((k, ident, expr)) => {
                    match env.get(ident.0) {
                        None => Step::Fault(Diag::new(ident.1, m_not_exist(&ast.syms, ident.0))),
                        Some(lhs) => {
                            let rb = interp(ast, env, expr, fuel - 1);
                            match rb {
                                Step::Val(rhs) => {
                                    match apply_bin(env, k, lhs, rhs) {
                                        Ok(v) => {
                                            env.set(ident.0, v);
                                            Step::Val(Literal::Nil)
                                        },
                                        Err(m) => Step::Fault(Diag::new(full, m)),
                                    }
                                },
                                _ => rb,
                            }
                        },
                    }
                },
                None => interp_rest(ast, env, id, e, full, fuel),
            }
        },
    }
}

/// Evaluate the non-operator node forms; the tail of [`interp`]'s dispatch.
#[verifier::rlimit(100)]
fn interp_rest(ast: &Ast, env: &mut Env, id: usize, e: Expr, full: RawSpan, fuel: usize) -> (r:
    Step)
    requires
        fuel >= 1,
        id < ast.nodes@.len(),
        ast.nodes@[id as int].0 == e,
        ast.nodes@[id as int].1 == full,
        as_binary(e) is None,
        as_compound(e) is None,
    ensures
        ({
            let er = eval(ast.view_s(), syms_view(ast.syms@), old(env).view_s(), id as int, fuel as nat);
            &&& final(env).view_s() == er.env
            &&& r@ == er.step
        }),
    decreases fuel, 2int, 0int,
{
    match e {
        Expr::Literal { value } => match value {
            AtomLit::Bool(b) => Step::Val(Literal::Bool(b)),
            AtomLit::Integer(n) => Step::Val(Literal::Integer(n)),
            AtomLit::Str(s) => {
                let b = sym_bytes(&ast.syms, s);
                let h = env.heap_alloc(HeapVal::Buf(b));
                Step::Val(Literal::Str(h))
            },
            AtomLit::Nil => Step::Val(Literal::Nil),
        },
        Expr::Access { ident } => match env.get(ident.0) {
            Some(v) => Step::Val(v),
            None => Step::Fault(Diag::new(ident.1, m_not_exist(&ast.syms, ident.0))),
        },
        Expr::Let { ident, expr, .. } => {
            if env.has(ident.0) {
                Step::Fault(Diag::new(ident.1, m_exists(&ast.syms, ident.0)))
            } else {
                let r = interp(ast, env, expr, fuel - 1);
                match r {
                    Step::Val(v) => {
                        if env.assign(ident.0, v) {
                            Step::Val(Literal::Nil)
                        } else {
                            Step::Fault(Diag::new(full, m_exists(&ast.syms, ident.0)))
                        }
                    },
                    _ => r,
                }
            }
        },
        Expr::Print { value, .. } => {
            let r = interp(ast, env, value, fuel - 1);
            match r {
                Step::Val(v) => {
                    let text = render_value(&env.heap, &ast.syms, &v);
                    env.print(text.as_slice());
                    Step::Val(Literal::Nil)
                },
                _ => r,
            }
        },
        Expr::Return { value, .. } => {
            let r = interp(ast, env, value, fuel - 1);
            match r {
                Step::Val(v) => Step::Ret(v, full),
                _ => r,
            }
        },
        Expr::Group { expr, .. } => interp(ast, env, expr, fuel - 1),
        Expr::Block { exprs_lo, exprs_len, .. } => {
            env.push_frame();
            let r = exec(ast, env, exprs_lo, exprs_len, 0, fuel - 1);
            env.pop_frame();
            r
        },
        Expr::If { condition, then, other, .. } => {
            let rc = interp(ast, env, condition, fuel - 1);
            match rc {
                Step::Val(c) => match c {
                    Literal::Bool(b) => {
                        if b {
                            let rt = interp(ast, env, then, fuel - 1);
                            match rt {
                                Step::Val(_) => Step::Val(Literal::Nil),
                                _ => rt,
                            }
                        } else {
                            match other {
                                Some(o) => {
                                    let ro = interp(ast, env, o, fuel - 1);
                                    match ro {
                                        Step::Val(_) => Step::Val(Literal::Nil),
                                        _ => ro,
                                    }
                                },
                                None => Step::Val(Literal::Nil),
                            }
                        }
                    },
                    _ => {
                        let sp = node_span_x(ast, condition);
                        Step::Fault(
                            Diag::new(
                                sp,
                                slice_to_vec(
                                    "condition of an `if` statement must be of type `bool`".as_bytes(),
                                ),
                            ),
                        )
                    },
                },
                _ => rc,
            }
        },
        Expr::While { condition, then, .. } => {
            let rc = interp(ast, env, condition, fuel - 1);
            match rc {
                Step::Val(c) => match c {
                    Literal::Bool(b) => {
                        if b {
                            let rt = interp(ast, env, then, fuel - 1);
                            match rt {
                                Step::Val(_) => interp(ast, env, id, fuel - 1),
                                _ => rt,
                            }
                        } else {
                            Step::Val(Literal::Nil)
                        }
                    },
                    _ => {
                        let sp = node_span_x(ast, condition);
                        Step::Fault(
                            Diag::new(
                                sp,
                                slice_to_vec(
                                    "condition of an `while` statement must be of type `bool`".as_bytes(),
                                ),
                            ),
                        )
                    },
                },
                _ => rc,
            }
        },
        Expr::FnDecl { name, args_lo, args_len, block, .. } => {
            if env.has(name.0) {
                Step::Fault(Diag::new(full, m_exists(&ast.syms, name.0)))
            } else {
                let f = Literal::Fn {
                    name: name.0,
                    name_span: name.1,
                    args_lo,
                    args_len,
                    body: block,
                };
                let _ok = env.assign(name.0, f);
                Step::Val(Literal::Nil)
            }
        },
        Expr::Assign { ident, expr, .. } => {
            if !env.has(ident.0) {
                Step::Fault(Diag::new(ident.1, m_not_exist(&ast.syms, ident.0)))
            } else {
                let r = interp(ast, env, expr, fuel - 1);
                match r {
                    Step::Val(v) => {
                        env.set(ident.0, v);
                        Step::Val(Literal::Nil)
                    },
                    _ => r,
                }
            }
        },
        Expr::Not { expr, .. } => {
            let r = interp(ast, env, expr, fuel - 1);
            match r {
                Step::Val(v) => match v.not() {
                    Ok(w) => Step::Val(w),
                    Err(m) => Step::Fault(Diag::new(full, m)),
                },
                _ => r,
            }
        },
        Expr::Neg { expr, .. } => {
            let r = interp(ast, env, expr, fuel - 1);
            match r {
                Step::Val(v) => match v.neg() {
                    Ok(w) => Step::Val(w),
                    Err(m) => Step::Fault(Diag::new(full, m)),
                },
                _ => r,
            }
        },
        Expr::FnCall { access, args_lo, args_len, .. } => exec_call(
            ast,
            env,
            access,
            args_lo,
            args_len,
            fuel - 1,
        ),
        Expr::Object { exprs_lo, exprs_len, .. } => {
            let acc: Vec<(usize, Literal)> = Vec::new();
            assert(acc@ =~= Seq::<(usize, Literal)>::empty());
            let (fields, st) = exec_obj(ast, env, exprs_lo, exprs_len, 0, acc, fuel - 1);
            match st {
                Step::Val(_) => {
                    let h = env.heap_alloc(HeapVal::Obj(fields));
                    Step::Val(Literal::Object(h))
                },
                _ => st,
            }
        },
        Expr::SetLit { exprs_lo, exprs_len, .. } => {
            let acc: Vec<Literal> = Vec::new();
            assert(acc@ =~= Seq::<Literal>::empty());
            let (elems, st) = exec_set(ast, env, exprs_lo, exprs_len, 0, acc, fuel - 1);
            match st {
                Step::Val(_) => {
                    let h = env.heap_alloc(HeapVal::Elems(elems));
                    Step::Val(Literal::SetVal(h))
                },
                _ => st,
            }
        },
        Expr::Chain { parent, child } => {
            let rp = interp(ast, env, parent, fuel - 1);
            match rp {
                Step::Val(p) => match p {
                    Literal::Object(h) => {
                        let rc = interp(ast, env, child, fuel - 1);
                        match rc {
                            Step::Val(c) => match c {
                                Literal::Str(hs) => {
                                    let key = env.buf_bytes(hs);
                                    let found: Option<Literal> = if h < env.heap.len() {
                                        proof {
                                            assert(env.heap.deep_view()[h as int]
                                                == env.heap@[h as int]@);
                                        }
                                        match &env.heap[h] {
                                            HeapVal::Obj(f) => find_field_x(&ast.syms, f, &key, 0),
                                            _ => {
                                                proof {
                                                    assert(fields_at(
                                                        env.view_s().heap,
                                                        h as int,
                                                    ) =~= Seq::<(usize, Literal)>::empty());
                                                }
                                                None
                                            },
                                        }
                                    } else {
                                        proof {
                                            assert(fields_at(env.view_s().heap, h as int)
                                                =~= Seq::<(usize, Literal)>::empty());
                                        }
                                        None
                                    };
                                    match found {
                                        Some(v) => Step::Val(v),
                                        None => {
                                            let sp = node_span_x(ast, child);
                                            Step::Fault(Diag::new(sp, m_no_index(&key)))
                                        },
                                    }
                                },
                                _ => {
                                    let sp = node_span_x(ast, child);
                                    Step::Fault(Diag::new(sp, m_index_with(&c)))
                                },
                            },
                            _ => rc,
                        }
                    },
                    _ => {
                        let sp = node_span_x(ast, parent);
                        Step::Fault(Diag::new(sp, m_index_into(&p)))
                    },
                },
                _ => rp,
            }
        },
        Expr::Error(ve) => Step::Fault(Diag::new(full, ve.message())),
        _ => Step::Fault(Diag::new(full, slice_to_vec("unreachable state".as_bytes()))),
    }
}

/// Run the statements of a block in order; mirrors [`eval_list`].
#[verifier::rlimit(100)]
pub fn exec(ast: &Ast, env: &mut Env, lo: usize, len: usize, i: usize, fuel: usize) -> (r: Step)
    ensures
        ({
            let er = eval_list(
                ast.view_s(),
                syms_view(ast.syms@),
                old(env).view_s(),
                lo as int,
                len as int,
                i as int,
                fuel as nat,
            );
            &&& final(env).view_s() == er.env
            &&& r@ == er.step
        }),
    decreases fuel, 2int, len - i,
{
    if i >= len {
        return Step::Val(Literal::Nil);
    }
    if fuel == 0 {
        let sp = node_span_x(ast, kid_get(ast, lo, i));
        return Step::Fault(Diag::new(sp, slice_to_vec("evaluation budget exhausted".as_bytes())));
    }
    let r = interp(ast, env, kid_get(ast, lo, i), fuel - 1);
    match r {
        Step::Val(_) => exec(ast, env, lo, len, i + 1, fuel - 1),
        Step::Ret(v, sp) => {
            let nid = kid_get(ast, lo, i);
            let direct_return = if nid < ast.nodes.len() {
                match ast.nodes[nid].0 {
                    Expr::Return { .. } => true,
                    _ => false,
                }
            } else {
                false
            };
            if i + 1 < len && direct_return {
                let nsp = node_span_x(ast, kid_get(ast, lo, i + 1));
                Step::Fault(
                    Diag::new(
                        nsp,
                        slice_to_vec("statement after `return` is never reached".as_bytes()),
                    ),
                )
            } else {
                Step::Ret(v, sp)
            }
        },
        Step::Fault(d) => Step::Fault(d),
    }
}

/// Evaluate call arguments in the caller's scope; mirrors [`eval_args`].
#[verifier::rlimit(100)]
fn exec_args(
    ast: &Ast,
    env: &mut Env,
    lo: usize,
    len: usize,
    i: usize,
    acc: Vec<Literal>,
    fuel: usize,
) -> (r: (Vec<Literal>, Step))
    ensures
        ({
            let er = eval_args(
                ast.view_s(),
                syms_view(ast.syms@),
                old(env).view_s(),
                lo as int,
                len as int,
                i as int,
                acc@,
                fuel as nat,
            );
            &&& final(env).view_s() == er.env
            &&& r.0@ == er.vals
            &&& r.1@ == er.step
        }),
    decreases fuel, 2int, len - i,
{
    if i >= len {
        return (acc, Step::Val(Literal::Nil));
    }
    if fuel == 0 {
        let sp = node_span_x(ast, kid_get(ast, lo, i));
        return (
            acc,
            Step::Fault(Diag::new(sp, slice_to_vec("evaluation budget exhausted".as_bytes()))),
        );
    }
    let r = interp(ast, env, kid_get(ast, lo, i), fuel - 1);
    match r {
        Step::Val(v) => {
            let mut acc2 = acc;
            acc2.push(v);
            exec_args(ast, env, lo, len, i + 1, acc2, fuel - 1)
        },
        _ => (acc, r),
    }
}

/// Evaluate a function call; mirrors [`eval_call`].
#[verifier::rlimit(100)]
fn exec_call(ast: &Ast, env: &mut Env, access: usize, lo: usize, len: usize, fuel: usize) -> (r:
    Step)
    ensures
        ({
            let er = eval_call(
                ast.view_s(),
                syms_view(ast.syms@),
                old(env).view_s(),
                access as int,
                lo as int,
                len as int,
                fuel as nat,
            );
            &&& final(env).view_s() == er.env
            &&& r@ == er.step
        }),
    decreases fuel, 3int, 0int,
{
    if fuel == 0 {
        let sp = node_span_x(ast, access);
        return Step::Fault(Diag::new(sp, slice_to_vec("evaluation budget exhausted".as_bytes())));
    }
    let rf = interp(ast, env, access, fuel - 1);
    match rf {
        Step::Val(fv) => match fv {
            Literal::Fn { name, name_span, args_lo: plo, args_len: plen, body } => {
                if len > plen {
                    let a = node_span_x(ast, kid_get(ast, lo, plen));
                    let b = node_span_x(ast, kid_get(ast, lo, len - 1));
                    Step::Fault(
                        Diag::new(
                            RawSpan { start: a.start, end: b.end },
                            m_arity(&ast.syms, name, plen, len),
                        ),
                    )
                } else {
                    let acc: Vec<Literal> = Vec::new();
                    assert(acc@ =~= Seq::<Literal>::empty());
                    let (argv, st) = exec_args(ast, env, lo, len, 0, acc, fuel - 1);
                    match st {
                        Step::Val(_) => {
                            if len < plen {
                                Step::Fault(Diag::new(name_span, m_arity(&ast.syms, name, plen, len)))
                            } else {
                                let bb: Option<(usize, usize)> = if body < ast.nodes.len() {
                                    match ast.nodes[body].0 {
                                        Expr::Block { exprs_lo, exprs_len, .. } => Some(
                                            (exprs_lo, exprs_len),
                                        ),
                                        _ => None,
                                    }
                                } else {
                                    None
                                };
                                match bb {
                                    Some((blo, blen)) => {
                                        env.push_frame();
                                        bind_params_x(env, ast, plo, &argv, plen);
                                        let rb = exec(ast, env, blo, blen, 0, fuel - 1);
                                        env.pop_frame();
                                        match rb {
                                            Step::Val(_) => Step::Fault(
                                                Diag::new(name_span, m_no_return(&ast.syms, name)),
                                            ),
                                            Step::Ret(v, _) => Step::Val(v),
                                            Step::Fault(d) => Step::Fault(d),
                                        }
                                    },
                                    None => {
                                        let sp = node_span_x(ast, body);
                                        Step::Fault(Diag::new(sp, m_non_block(&ast.syms, name)))
                                    },
                                }
                            }
                        },
                        _ => st,
                    }
                }
            },
            _ => {
                let sp = node_span_x(ast, access);
                Step::Fault(Diag::new(sp, slice_to_vec("value is not a function".as_bytes())))
            },
        },
        _ => rf,
    }
}

/// Evaluate struct-literal entries; mirrors [`eval_obj`].
#[verifier::rlimit(100)]
fn exec_obj(
    ast: &Ast,
    env: &mut Env,
    lo: usize,
    len: usize,
    i: usize,
    acc: Vec<(usize, Literal)>,
    fuel: usize,
) -> (r: (Vec<(usize, Literal)>, Step))
    ensures
        ({
            let er = eval_obj(
                ast.view_s(),
                syms_view(ast.syms@),
                old(env).view_s(),
                lo as int,
                len as int,
                i as int,
                acc@,
                fuel as nat,
            );
            &&& final(env).view_s() == er.env
            &&& r.0@ == er.fields
            &&& r.1@ == er.step
        }),
    decreases fuel, 2int, len - i,
{
    if i >= len {
        return (acc, Step::Val(Literal::Nil));
    }
    if fuel == 0 {
        let sp = node_span_x(ast, kid_get(ast, lo, i));
        return (
            acc,
            Step::Fault(Diag::new(sp, slice_to_vec("evaluation budget exhausted".as_bytes()))),
        );
    }
    let nid = kid_get(ast, lo, i);
    let entry: Option<Expr> = if nid < ast.nodes.len() {
        Some(ast.nodes[nid].0)
    } else {
        None
    };
    match entry {
        Some(Expr::Let { ident, expr, .. }) => {
            let r = interp(ast, env, expr, fuel - 1);
            match r {
                Step::Val(v) => {
                    let mut acc2 = acc;
                    crate::env::assoc_set(&mut acc2, ident.0, v);
                    exec_obj(ast, env, lo, len, i + 1, acc2, fuel - 1)
                },
                _ => (acc, r),
            }
        },
        Some(Expr::FnDecl { name, args_lo, args_len, block, .. }) => {
            let f = Literal::Fn {
                name: name.0,
                name_span: name.1,
                args_lo,
                args_len,
                body: block,
            };
            let mut acc2 = acc;
            crate::env::assoc_set(&mut acc2, name.0, f);
            exec_obj(ast, env, lo, len, i + 1, acc2, fuel - 1)
        },
        _ => {
            let sp = node_span_x(ast, nid);
            (acc, Step::Fault(Diag::new(sp, slice_to_vec("unreachable state".as_bytes()))))
        },
    }
}

/// Evaluate set-literal elements; mirrors [`eval_set`].
#[verifier::rlimit(100)]
fn exec_set(
    ast: &Ast,
    env: &mut Env,
    lo: usize,
    len: usize,
    i: usize,
    acc: Vec<Literal>,
    fuel: usize,
) -> (r: (Vec<Literal>, Step))
    ensures
        ({
            let er = eval_set(
                ast.view_s(),
                syms_view(ast.syms@),
                old(env).view_s(),
                lo as int,
                len as int,
                i as int,
                acc@,
                fuel as nat,
            );
            &&& final(env).view_s() == er.env
            &&& r.0@ == er.elems
            &&& r.1@ == er.step
        }),
    decreases fuel, 2int, len - i,
{
    if i >= len {
        return (acc, Step::Val(Literal::Nil));
    }
    if fuel == 0 {
        let sp = node_span_x(ast, kid_get(ast, lo, i));
        return (
            acc,
            Step::Fault(Diag::new(sp, slice_to_vec("evaluation budget exhausted".as_bytes()))),
        );
    }
    let r = interp(ast, env, kid_get(ast, lo, i), fuel - 1);
    match r {
        Step::Val(v) => {
            if has_dup_x(env, &acc, v, 0) {
                let sp = node_span_x(ast, kid_get(ast, lo, i));
                let m = m_dup(&env.heap, &ast.syms, &v);
                (acc, Step::Fault(Diag::new(sp, m)))
            } else {
                let mut acc2 = acc;
                acc2.push(v);
                exec_set(ast, env, lo, len, i + 1, acc2, fuel - 1)
            }
        },
        _ => (acc, r),
    }
}

/// The result of one whole program run: the captured print output, and the
/// runtime error that stopped it, if one did.
pub struct RunOut {
    pub output: Vec<u8>,
    pub error: Option<Diag>,
}

/// The result of running the top-level statements from `i` on.
pub struct RunR {
    pub env: EnvS,
    pub err: Option<DiagV>,
}

/// The top-level statement at `i`, or an always-invalid node.
pub open spec fn stmt_at(ast: AstS, i: int) -> int {
    if 0 <= i < ast.stmts.len() {
        ast.stmts[i] as int
    } else {
        ast.nodes.len() as int
    }
}

/// Run the top-level statements from `i` on. Each statement receives the
/// whole step budget; a `return` reaching the top level is the
/// outside-a-function error.
pub open spec fn spec_run(ast: AstS, syms: Seq<Seq<u8>>, env: EnvS, i: int, fuel: nat) -> RunR
    decreases ast.stmts.len() - i,
{
    if i < 0 || i >= ast.stmts.len() {
        RunR { env, err: Option::None }
    } else {
        let r = eval(ast, syms, env, stmt_at(ast, i), fuel);
        match r.step {
            StepV::Val(_) => spec_run(ast, syms, r.env, i + 1, fuel),
            StepV::Ret(_, sp) => RunR {
                env: r.env,
                err: Option::Some(
                    DiagV {
                        span: sp,
                        msg: "used `return` statement outside of a `fn` block".spec_bytes(),
                    },
                ),
            },
            StepV::Fault(d) => RunR { env: r.env, err: Option::Some(d) },
        }
    }
}

/// The image of a whole program run from a fresh environment.
pub open spec fn spec_run_program(ast: AstS, syms: Seq<Seq<u8>>, budget: nat) -> RunR {
    spec_run(
        ast,
        syms,
        EnvS {
            frames: seq![Seq::<(usize, Literal)>::empty()],
            heap: Seq::empty(),
            stdout: Seq::empty(),
        },
        0,
        budget,
    )
}

/// Run a program from a fresh environment under a step budget.
///
/// The output is the program's accumulated print text; the error, if any, is
/// the first runtime error, span-anchored. The budget bounds the evaluation
/// steps of each top-level statement, so a runaway loop stops with a runtime
/// error instead of spinning.
pub fn run_program(ast: &Ast, budget: usize) -> (r: RunOut)
    ensures
        ({
            let rr = spec_run_program(ast.view_s(), syms_view(ast.syms@), budget as nat);
            &&& r.output@ == rr.env.stdout
            &&& (match r.error {
                Option::Some(d) => rr.err == Option::Some(d@),
                Option::None => rr.err is None,
            })
        }),
{
    let mut env = Env::new();
    let ghost env0 = EnvS {
        frames: seq![Seq::<(usize, Literal)>::empty()],
        heap: Seq::<HeapValS>::empty(),
        stdout: Seq::<u8>::empty(),
    };
    proof {
        assert(env.view_s().frames == env0.frames);
        assert(env.view_s().heap == env0.heap);
        assert(env.view_s().stdout =~= env0.stdout);
    }
    let mut i: usize = 0;
    while i < ast.stmts.len()
        invariant
            i <= ast.stmts@.len(),
            ({
                let total = spec_run_program(ast.view_s(), syms_view(ast.syms@), budget as nat);
                let rest = spec_run(
                    ast.view_s(),
                    syms_view(ast.syms@),
                    env.view_s(),
                    i as int,
                    budget as nat,
                );
                total == rest
            }),
        decreases ast.stmts@.len() - i,
    {
        let r = interp(ast, &mut env, ast.stmts[i], budget);
        match r {
            Step::Val(_) => {
                i = i + 1;
            },
            Step::Ret(_, sp) => {
                let out = slice_to_vec(env.stdout.as_slice());
                return RunOut {
                    output: out,
                    error: Some(
                        Diag::new(
                            sp,
                            slice_to_vec(
                                "used `return` statement outside of a `fn` block".as_bytes(),
                            ),
                        ),
                    ),
                };
            },
            Step::Fault(d) => {
                let out = slice_to_vec(env.stdout.as_slice());
                return RunOut { output: out, error: Some(d) };
            },
        }
    }
    let out = slice_to_vec(env.stdout.as_slice());
    RunOut { output: out, error: None }
}


/// Interpreting a program twice, each time from a fresh environment, yields
/// identical output and identical errors: evaluation depends on the program
/// and the budget alone. In particular a literal-only program with no
/// variables prints the same text on every run.
pub proof fn lemma_run_deterministic(
    ast: AstS,
    syms: Seq<Seq<u8>>,
    budget: nat,
    r1: RunR,
    r2: RunR,
)
    requires
        r1 == spec_run_program(ast, syms, budget),
        r2 == spec_run_program(ast, syms, budget),
    ensures
        r1.env.stdout == r2.env.stdout,
        r1.err == r2.err,
{
}

} // verus!
