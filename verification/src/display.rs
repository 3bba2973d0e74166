//! Textual rendering: values for `print` output and diagnostics.
//!
//! Rendering follows heap indices, which only ever point at earlier cells,
//! so the recursion is bounded by the index itself; a malformed index
//! renders as the none sentinel rather than failing.

use vstd::prelude::*;
use crate::common::push_bytes;
use crate::common::slice_to_vec;
use crate::literal::{HeapVal, HeapValS, Literal, bytes_at};
use crate::text::{spec_i64_text, spec_u64_digits, i64_text, u64_digits};
use crate::token::syms_view;
use crate::ast::{Ast, AstS, Expr};
use crate::span::Span;
use crate::interpreter::{as_binary, as_compound, kid_at};

verus! {

use vstd::string::StringSliceAdditionalSpecFns;

/// The text of a symbol, or nothing for an index outside the table.
pub open spec fn sym_or_empty(syms: Seq<Seq<u8>>, s: int) -> Seq<u8> {
    if 0 <= s < syms.len() {
        syms[s]
    } else {
        Seq::empty()
    }
}

/// A copy of the text of a symbol; mirrors [`sym_or_empty`].
pub fn sym_bytes(syms: &Vec<Vec<u8>>, s: usize) -> (r: Vec<u8>)
    ensures
        r@ == sym_or_empty(syms_view(syms@), s as int),
{
    if s < syms.len() {
        proof {
            assert(syms_view(syms@)[s as int] == syms@[s as int]@);
        }
        slice_to_vec(syms[s].as_slice())
    } else {
        Vec::new()
    }
}

/// The object fields behind a heap index, or none.
pub open spec fn fields_at(heap: Seq<HeapValS>, h: int) -> Seq<(usize, Literal)> {
    if 0 <= h < heap.len() {
        match heap[h] {
            HeapValS::Obj(f) => f,
            _ => Seq::empty(),
        }
    } else {
        Seq::empty()
    }
}

/// The set elements behind a heap index, or none.
pub open spec fn elems_at(heap: Seq<HeapValS>, h: int) -> Seq<Literal> {
    if 0 <= h < heap.len() {
        match heap[h] {
            HeapValS::Elems(e) => e,
            _ => Seq::empty(),
        }
    } else {
        Seq::empty()
    }
}

/// The rendering depth bound of a value: one past its heap index, so that a
/// cell's contents always rank below the cell.
pub open spec fn lit_rank(v: Literal) -> int {
    match v {
        Literal::Str(h) => h + 1,
        Literal::Object(h) => h + 1,
        Literal::SetVal(h) => h + 1,
        _ => 0,
    }
}

/// The comma-separated field names of an object.
pub open spec fn spec_join_keys(syms: Seq<Seq<u8>>, fields: Seq<(usize, Literal)>, i: int) -> Seq<
    u8,
>
    decreases fields.len() - i,
{
    if i < 0 || i >= fields.len() {
        Seq::empty()
    } else if i == fields.len() - 1 {
        sym_or_empty(syms, fields[i].0 as int)
    } else {
        sym_or_empty(syms, fields[i].0 as int) + ", ".spec_bytes() + spec_join_keys(
            syms,
            fields,
            i + 1,
        )
    }
}

/// The canonical text of a value: how `print` writes it.
pub open spec fn spec_render(heap: Seq<HeapValS>, syms: Seq<Seq<u8>>, v: Literal) -> Seq<u8>
    decreases lit_rank(v), 1int, 0int,
{
    match v {
        Literal::Bool(b) => if b {
            "true".spec_bytes()
        } else {
            "false".spec_bytes()
        },
        Literal::Integer(n) => spec_i64_text(n as int),
        Literal::Str(h) => bytes_at(heap, h as int),
        Literal::Fn { name, args_len, .. } => "fn ".spec_bytes() + sym_or_empty(syms, name as int)
            + "(".spec_bytes() + spec_u64_digits(args_len as nat) + ")".spec_bytes(),
        Literal::Object(h) => "object { ".spec_bytes() + spec_join_keys(
            syms,
            fields_at(heap, h as int),
            0,
        ) + " }".spec_bytes(),
        Literal::SetVal(h) => "set { ".spec_bytes() + spec_render_elems(
            heap,
            syms,
            elems_at(heap, h as int),
            0,
            h + 1,
        ) + " }".spec_bytes(),
        Literal::Nil => "_".spec_bytes(),
    }
}

/// The comma-separated renderings of a set's elements. An element whose heap
/// index is not below `bound` (impossible in a well-formed heap) renders as
/// the none sentinel.
pub open spec fn spec_render_elems(
    heap: Seq<HeapValS>,
    syms: Seq<Seq<u8>>,
    elems: Seq<Literal>,
    i: int,
    bound: int,
) -> Seq<u8>
    decreases bound, 0int, elems.len() - i,
{
    if i < 0 || i >= elems.len() || bound < 0 {
        Seq::empty()
    } else {
        let one = if lit_rank(elems[i]) < bound {
            spec_render(heap, syms, elems[i])
        } else {
            "_".spec_bytes()
        };
        if i == elems.len() - 1 {
            one
        } else {
            one + ", ".spec_bytes() + spec_render_elems(heap, syms, elems, i + 1, bound)
        }
    }
}

/// The comma-separated field names of an object; mirrors [`spec_join_keys`].
fn join_keys(syms: &Vec<Vec<u8>>, fields: &Vec<(usize, Literal)>, i: usize) -> (r: Vec<u8>)
    requires
        i <= fields@.len(),
    ensures
        r@ == spec_join_keys(syms_view(syms@), fields@, i as int),
    decreases fields@.len() - i,
{
    if i >= fields.len() {
        Vec::new()
    } else if i == fields.len() - 1 {
        sym_bytes(syms, fields[i].0)
    } else {
        let mut r = sym_bytes(syms, fields[i].0);
        push_bytes(&mut r, ", ".as_bytes());
        let rest = join_keys(syms, fields, i + 1);
        push_bytes(&mut r, rest.as_slice());
        assert(r@ =~= spec_join_keys(syms_view(syms@), fields@, i as int));
        r
    }
}

/// Render a value to its canonical text; mirrors [`spec_render`].
pub fn render_value(heap: &Vec<HeapVal>, syms: &Vec<Vec<u8>>, v: &Literal) -> (r: Vec<u8>)
    ensures
        r@ == spec_render(heap.deep_view(), syms_view(syms@), *v),
    decreases lit_rank(*v), 1int, 0int,
{
    match v {
        Literal::Bool(b) => {
            if *b {
                slice_to_vec("true".as_bytes())
            } else {
                slice_to_vec("false".as_bytes())
            }
        },
        Literal::Integer(n) => i64_text(*n),
        Literal::Str(h) => {
            if *h < heap.len() {
                proof {
                    assert(heap.deep_view()[*h as int] == heap@[*h as int]@);
                }
                match &heap[*h] {
                    HeapVal::Buf(b) => slice_to_vec(b.as_slice()),
                    _ => Vec::new(),
                }
            } else {
                Vec::new()
            }
        },
        Literal::Fn { name, args_len, .. } => {
            let mut r = slice_to_vec("fn ".as_bytes());
            let nm = sym_bytes(syms, *name);
            push_bytes(&mut r, nm.as_slice());
            push_bytes(&mut r, "(".as_bytes());
            let d = u64_digits(*args_len as u64);
            push_bytes(&mut r, d.as_slice());
            push_bytes(&mut r, ")".as_bytes());
            assert(r@ =~= spec_render(heap.deep_view(), syms_view(syms@), *v));
            r
        },
        Literal::Object(h) => {
            let mut r = slice_to_vec("object { ".as_bytes());
            if *h < heap.len() {
                proof {
                    assert(heap.deep_view()[*h as int] == heap@[*h as int]@);
                }
                match &heap[*h] {
                    HeapVal::Obj(f) => {
                        let ks = join_keys(syms, f, 0);
                        push_bytes(&mut r, ks.as_slice());
                    },
                    _ => {
                        assert(spec_join_keys(
                            syms_view(syms@),
                            fields_at(heap.deep_view(), *h as int),
                            0,
                        ) =~= Seq::<u8>::empty());
                    },
                }
            } else {
                assert(spec_join_keys(
                    syms_view(syms@),
                    fields_at(heap.deep_view(), *h as int),
                    0,
                ) =~= Seq::<u8>::empty());
            }
            push_bytes(&mut r, " }".as_bytes());
            assert(r@ =~= spec_render(heap.deep_view(), syms_view(syms@), *v));
            r
        },
        Literal::SetVal(h) => {
            let mut r = slice_to_vec("set { ".as_bytes());
            if *h < heap.len() {
                proof {
                    assert(heap.deep_view()[*h as int] == heap@[*h as int]@);
                }
                match &heap[*h] {
                    HeapVal::Elems(es) => {
                        let body = render_elems(heap, syms, es, 0, *h + 1);
                        push_bytes(&mut r, body.as_slice());
                    },
                    _ => {
                        assert(spec_render_elems(
                            heap.deep_view(),
                            syms_view(syms@),
                            elems_at(heap.deep_view(), *h as int),
                            0,
                            *h + 1,
                        ) =~= Seq::<u8>::empty());
                    },
                }
            } else {
                assert(spec_render_elems(
                    heap.deep_view(),
                    syms_view(syms@),
                    elems_at(heap.deep_view(), *h as int),
                    0,
                    *h + 1,
                ) =~= Seq::<u8>::empty());
            }
            push_bytes(&mut r, " }".as_bytes());
            assert(r@ =~= spec_render(heap.deep_view(), syms_view(syms@), *v));
            r
        },
        Literal::Nil => slice_to_vec("_".as_bytes()),
    }
}

/// Render a set's elements; mirrors [`spec_render_elems`].
fn render_elems(
    heap: &Vec<HeapVal>,
    syms: &Vec<Vec<u8>>,
    elems: &Vec<Literal>,
    i: usize,
    bound: usize,
) -> (r: Vec<u8>)
    requires
        i <= elems@.len(),
    ensures
        r@ == spec_render_elems(heap.deep_view(), syms_view(syms@), elems@, i as int, bound as int),
    decreases bound as int, 0int, elems@.len() - i,
{
    if i >= elems.len() {
        Vec::new()
    } else {
        let e = elems[i];
        let rk = lit_rank_guarded(&e, bound);
        let one = if rk {
            render_value(heap, syms, &e)
        } else {
            slice_to_vec("_".as_bytes())
        };
        if i == elems.len() - 1 {
            one
        } else {
            let mut r = one;
            push_bytes(&mut r, ", ".as_bytes());
            let rest = render_elems(heap, syms, elems, i + 1, bound);
            push_bytes(&mut r, rest.as_slice());
            assert(r@ =~= spec_render_elems(
                heap.deep_view(),
                syms_view(syms@),
                elems@,
                i as int,
                bound as int,
            ));
            r
        }
    }
}

/// Whether a value's rank lies below the bound, without overflow.
fn lit_rank_guarded(v: &Literal, bound: usize) -> (r: bool)
    ensures
        r == (lit_rank(*v) < bound as int),
{
    match v {
        Literal::Str(h) => bound > 0 && *h < bound - 1,
        Literal::Object(h) => bound > 0 && *h < bound - 1,
        Literal::SetVal(h) => bound > 0 && *h < bound - 1,
        _ => bound > 0,
    }
}


/// The unit handle of the text renderer.
pub struct AstPrinter;

impl AstPrinter {
    /// Render a runtime value to its canonical text.
    pub fn print(&self, heap: &Vec<HeapVal>, syms: &Vec<Vec<u8>>, v: &Literal) -> (r: Vec<u8>)
        ensures
            r@ == spec_render(heap.deep_view(), syms_view(syms@), *v),
    {
        render_value(heap, syms, v)
    }
}

/// The indentation prefix of a nesting depth.
pub open spec fn spec_tabs(depth: nat) -> Seq<u8>
    decreases depth,
{
    if depth == 0 {
        Seq::empty()
    } else {
        "\t".spec_bytes() + spec_tabs((depth - 1) as nat)
    }
}

/// The canonical text of a source literal.
pub open spec fn spec_atom_text(l: crate::ast::AtomLit, syms: Seq<Seq<u8>>) -> Seq<u8> {
    match l {
        crate::ast::AtomLit::Bool(b) => if b {
            "true".spec_bytes()
        } else {
            "false".spec_bytes()
        },
        crate::ast::AtomLit::Integer(n) => spec_i64_text(n as int),
        crate::ast::AtomLit::Str(s) => sym_or_empty(syms, s as int),
        crate::ast::AtomLit::Nil => "_".spec_bytes(),
    }
}

/// The rendered spelling of a binary operator.
pub open spec fn spec_bin_op_text(k: crate::interpreter::BinKind) -> Seq<u8> {
    match k {
        crate::interpreter::BinKind::Add => "+".spec_bytes(),
        crate::interpreter::BinKind::Sub => "-".spec_bytes(),
        crate::interpreter::BinKind::Mul => "*".spec_bytes(),
        crate::interpreter::BinKind::Div => "/".spec_bytes(),
        crate::interpreter::BinKind::Rem => "%".spec_bytes(),
        crate::interpreter::BinKind::Shl => "<<".spec_bytes(),
        crate::interpreter::BinKind::Shr => ">>".spec_bytes(),
        crate::interpreter::BinKind::BitAnd => "&".spec_bytes(),
        crate::interpreter::BinKind::BitOr => "|".spec_bytes(),
        crate::interpreter::BinKind::BitXor => "^".spec_bytes(),
        crate::interpreter::BinKind::Eq => "==".spec_bytes(),
        crate::interpreter::BinKind::Ne => "!=".spec_bytes(),
        crate::interpreter::BinKind::Gt => ">".spec_bytes(),
        crate::interpreter::BinKind::Ge => ">=".spec_bytes(),
        crate::interpreter::BinKind::Lt => "<".spec_bytes(),
        crate::interpreter::BinKind::Le => "<=".spec_bytes(),
    }
}

/// The rendered spelling of a compound-assignment operator, with the
/// engine's own quirk that `+=` renders as `++`.
pub open spec fn spec_compound_op_text(k: crate::interpreter::BinKind) -> Seq<u8> {
    match k {
        crate::interpreter::BinKind::Add => "++".spec_bytes(),
        crate::interpreter::BinKind::Sub => "-=".spec_bytes(),
        crate::interpreter::BinKind::Mul => "*=".spec_bytes(),
        crate::interpreter::BinKind::Div => "/=".spec_bytes(),
        crate::interpreter::BinKind::Rem => "%=".spec_bytes(),
        crate::interpreter::BinKind::Shl => "<<=".spec_bytes(),
        crate::interpreter::BinKind::Shr => ">>=".spec_bytes(),
        crate::interpreter::BinKind::BitAnd => "&=".spec_bytes(),
        crate::interpreter::BinKind::BitOr => "|=".spec_bytes(),
        crate::interpreter::BinKind::BitXor => "^=".spec_bytes(),
        _ => "=".spec_bytes(),
    }
}

/// The comma-separated parameter names `params[plo..plo+plen]` from `i` on.
pub open spec fn spec_disp_params(
    params: Seq<Span<usize>>,
    syms: Seq<Seq<u8>>,
    plo: int,
    plen: int,
    i: int,
) -> Seq<u8>
    decreases plen - i,
{
    if i < 0 || i >= plen {
        Seq::empty()
    } else {
        let nm = if 0 <= plo + i < params.len() {
            sym_or_empty(syms, params[plo + i].0 as int)
        } else {
            Seq::empty()
        };
        if i == plen - 1 {
            nm
        } else {
            nm + ", ".spec_bytes() + spec_disp_params(params, syms, plo, plen, i + 1)
        }
    }
}

/// Reconstruct the canonical text of the node `id`, indented to `depth`.
///
/// This is the inverse-of-parsing display: what the tree would look like
/// written back out, statements on their own lines, blocks indented with
/// tabs, one operator per nesting level. An exhausted recursion budget or a
/// dangling node renders as the error placeholder `@`.
pub open spec fn spec_disp(ast: AstS, syms: Seq<Seq<u8>>, id: int, depth: nat, fuel: nat) -> Seq<
    u8,
>
    decreases fuel, 0int,
{
    if fuel == 0 || id < 0 || id >= ast.nodes.len() {
        spec_tabs(depth) + "@".spec_bytes()
    } else {
        let e = ast.nodes[id].0;
        let body = if as_binary(e) is Some {
            let (k, lhs, rhs) = as_binary(e).unwrap();
            spec_disp(ast, syms, lhs as int, 0, (fuel - 1) as nat) + " ".spec_bytes()
                + spec_bin_op_text(k) + " ".spec_bytes() + spec_disp(
                ast,
                syms,
                rhs as int,
                0,
                (fuel - 1) as nat,
            )
        } else if as_compound(e) is Some {
            let (k, ident, expr) = as_compound(e).unwrap();
            sym_or_empty(syms, ident.0 as int) + " ".spec_bytes() + spec_compound_op_text(k)
                + " ".spec_bytes() + spec_disp(ast, syms, expr as int, 0, (fuel - 1) as nat)
                + ";".spec_bytes()
        } else {
            match e {
                Expr::Access { ident } => sym_or_empty(syms, ident.0 as int),
                Expr::Literal { value } => spec_atom_text(value, syms),
                Expr::Print { value, .. } => "print(".spec_bytes() + spec_disp(
                    ast,
                    syms,
                    value as int,
                    0,
                    (fuel - 1) as nat,
                ) + ");".spec_bytes(),
                Expr::Return { value, .. } => "return ".spec_bytes() + spec_disp(
                    ast,
                    syms,
                    value as int,
                    0,
                    (fuel - 1) as nat,
                ) + ";".spec_bytes(),
                Expr::Group { expr, .. } => "(".spec_bytes() + spec_disp(
                    ast,
                    syms,
                    expr as int,
                    0,
                    (fuel - 1) as nat,
                ) + ")".spec_bytes(),
                Expr::Block { exprs_lo, exprs_len, .. } => "{\n".spec_bytes() + spec_disp_lines(
                    ast,
                    syms,
                    exprs_lo as int,
                    exprs_len as int,
                    0,
                    bump(depth),
                    (fuel - 1) as nat,
                ) + "\n".spec_bytes() + spec_tabs(depth) + "}".spec_bytes(),
                Expr::If { condition, then, other, .. } => {
                    let head = "if (".spec_bytes() + spec_disp(
                        ast,
                        syms,
                        condition as int,
                        0,
                        (fuel - 1) as nat,
                    ) + ") ".spec_bytes() + spec_disp(ast, syms, then as int, depth, (fuel - 1) as nat);
                    match other {
                        Option::Some(o) => head + " else ".spec_bytes() + spec_disp(
                            ast,
                            syms,
                            o as int,
                            depth,
                            (fuel - 1) as nat,
                        ),
                        Option::None => head,
                    }
                },
                Expr::While { condition, then, .. } => "while (".spec_bytes() + spec_disp(
                    ast,
                    syms,
                    condition as int,
                    0,
                    (fuel - 1) as nat,
                ) + ") ".spec_bytes() + spec_disp(ast, syms, then as int, depth, (fuel - 1) as nat),
                Expr::FnDecl { name, args_lo, args_len, block, .. } => "fn ".spec_bytes()
                    + sym_or_empty(syms, name.0 as int) + "(".spec_bytes() + spec_disp_params(
                    ast.params,
                    syms,
                    args_lo as int,
                    args_len as int,
                    0,
                ) + ") ".spec_bytes() + spec_disp(ast, syms, block as int, depth, (fuel - 1) as nat),
                Expr::FnCall { access, args_lo, args_len, .. } => spec_disp(
                    ast,
                    syms,
                    access as int,
                    0,
                    (fuel - 1) as nat,
                ) + "(".spec_bytes() + spec_disp_items(
                    ast,
                    syms,
                    args_lo as int,
                    args_len as int,
                    0,
                    (fuel - 1) as nat,
                ) + ")".spec_bytes(),
                Expr::Let { ident, expr, .. } => "let ".spec_bytes() + sym_or_empty(
                    syms,
                    ident.0 as int,
                ) + " = ".spec_bytes() + spec_disp(ast, syms, expr as int, 0, (fuel - 1) as nat)
                    + ";".spec_bytes(),
                Expr::Assign { ident, expr, .. } => sym_or_empty(syms, ident.0 as int)
                    + " = ".spec_bytes() + spec_disp(ast, syms, expr as int, 0, (fuel - 1) as nat)
                    + ";".spec_bytes(),
                Expr::Not { expr, .. } => "!".spec_bytes() + spec_disp(
                    ast,
                    syms,
                    expr as int,
                    0,
                    (fuel - 1) as nat,
                ),
                Expr::Neg { expr, .. } => "-".spec_bytes() + spec_disp(
                    ast,
                    syms,
                    expr as int,
                    0,
                    (fuel - 1) as nat,
                ),
                Expr::Object { exprs_lo, exprs_len, .. } => "struct {\n".spec_bytes()
                    + spec_disp_lines(
                    ast,
                    syms,
                    exprs_lo as int,
                    exprs_len as int,
                    0,
                    bump(depth),
                    (fuel - 1) as nat,
                ) + "\n".spec_bytes() + spec_tabs(depth) + "}".spec_bytes(),
                Expr::SetLit { exprs_lo, exprs_len, .. } => "set {\n".spec_bytes()
                    + spec_disp_lines(
                    ast,
                    syms,
                    exprs_lo as int,
                    exprs_len as int,
                    0,
                    bump(depth),
                    (fuel - 1) as nat,
                ) + "\n".spec_bytes() + spec_tabs(depth) + "}".spec_bytes(),
                Expr::Chain { parent, child } => spec_disp(
                    ast,
                    syms,
                    parent as int,
                    0,
                    (fuel - 1) as nat,
                ) + ":".spec_bytes() + spec_disp(ast, syms, child as int, 0, (fuel - 1) as nat),
                _ => "@".spec_bytes(),
            }
        };
        spec_tabs(depth) + body
    }
}

/// Child nodes rendered one per line at `depth`.
pub open spec fn spec_disp_lines(
    ast: AstS,
    syms: Seq<Seq<u8>>,
    lo: int,
    len: int,
    i: int,
    depth: nat,
    fuel: nat,
) -> Seq<u8>
    decreases fuel, 1int, len - i,
{
    if i < 0 || i >= len {
        Seq::empty()
    } else if fuel == 0 {
        "@".spec_bytes()
    } else {
        let one = spec_disp(ast, syms, kid_at(ast, lo + i), depth, (fuel - 1) as nat);
        if i == len - 1 {
            one
        } else {
            one + "\n".spec_bytes() + spec_disp_lines(ast, syms, lo, len, i + 1, depth, (fuel
                - 1) as nat)
        }
    }
}

/// Child nodes rendered comma-separated inline.
pub open spec fn spec_disp_items(
    ast: AstS,
    syms: Seq<Seq<u8>>,
    lo: int,
    len: int,
    i: int,
    fuel: nat,
) -> Seq<u8>
    decreases fuel, 1int, len - i,
{
    if i < 0 || i >= len {
        Seq::empty()
    } else if fuel == 0 {
        "@".spec_bytes()
    } else {
        let one = spec_disp(ast, syms, kid_at(ast, lo + i), 0, (fuel - 1) as nat);
        if i == len - 1 {
            one
        } else {
            one + ", ".spec_bytes() + spec_disp_items(ast, syms, lo, len, i + 1, (fuel - 1) as nat)
        }
    }
}

/// One more level of nesting, clamped at the machine word.
pub open spec fn bump(depth: nat) -> nat {
    if depth < usize::MAX as nat {
        (depth + 1) as nat
    } else {
        depth
    }
}

/// One more level of nesting; mirrors [`bump`].
fn bump_x(depth: usize) -> (r: usize)
    ensures
        r as nat == bump(depth as nat),
{
    if depth < usize::MAX {
        depth + 1
    } else {
        depth
    }
}

/// The indentation prefix; mirrors [`spec_tabs`].
fn tabs_x(depth: usize) -> (r: Vec<u8>)
    ensures
        r@ == spec_tabs(depth as nat),
{
    let mut r: Vec<u8> = Vec::new();
    let mut i: usize = 0;
    while i < depth
        invariant
            i <= depth,
            r@ == spec_tabs(i as nat),
        decreases depth - i,
    {
        proof {
            lemma_tabs_unfold(i as nat + 1);
        }
        push_bytes(&mut r, "\t".as_bytes());
        i = i + 1;
    }
    r
}

/// Indentation grows one tab at a time from the front or the back alike.
proof fn lemma_tabs_unfold(depth: nat)
    ensures
        depth > 0 ==> spec_tabs(depth) == spec_tabs((depth - 1) as nat) + "\t".spec_bytes(),
    decreases depth,
{
    if depth > 1 {
        lemma_tabs_unfold((depth - 1) as nat);
        assert(spec_tabs(depth) == "\t".spec_bytes() + spec_tabs((depth - 1) as nat));
        assert("\t".spec_bytes() + (spec_tabs((depth - 2) as nat) + "\t".spec_bytes()) =~= (
        "\t".spec_bytes() + spec_tabs((depth - 2) as nat)) + "\t".spec_bytes());
    } else if depth == 1 {
        assert(spec_tabs(1) =~= spec_tabs(0) + "\t".spec_bytes());
    }
}

/// The canonical text of a source literal; mirrors [`spec_atom_text`].
fn atom_text(l: &crate::ast::AtomLit, syms: &Vec<Vec<u8>>) -> (r: Vec<u8>)
    ensures
        r@ == spec_atom_text(*l, syms_view(syms@)),
{
    match l {
        crate::ast::AtomLit::Bool(b) => {
            if *b {
                slice_to_vec("true".as_bytes())
            } else {
                slice_to_vec("false".as_bytes())
            }
        },
        crate::ast::AtomLit::Integer(n) => i64_text(*n),
        crate::ast::AtomLit::Str(s) => sym_bytes(syms, *s),
        crate::ast::AtomLit::Nil => slice_to_vec("_".as_bytes()),
    }
}

/// The spelling of a binary operator; mirrors [`spec_bin_op_text`].
fn bin_op_bytes(k: crate::interpreter::BinKind) -> (r: Vec<u8>)
    ensures
        r@ == spec_bin_op_text(k),
{
    let s: &str = match k {
        crate::interpreter::BinKind::Add => "+",
        crate::interpreter::BinKind::Sub => "-",
        crate::interpreter::BinKind::Mul => "*",
        crate::interpreter::BinKind::Div => "/",
        crate::interpreter::BinKind::Rem => "%",
        crate::interpreter::BinKind::Shl => "<<",
        crate::interpreter::BinKind::Shr => ">>",
        crate::interpreter::BinKind::BitAnd => "&",
        crate::interpreter::BinKind::BitOr => "|",
        crate::interpreter::BinKind::BitXor => "^",
        crate::interpreter::BinKind::Eq => "==",
        crate::interpreter::BinKind::Ne => "!=",
        crate::interpreter::BinKind::Gt => ">",
        crate::interpreter::BinKind::Ge => ">=",
        crate::interpreter::BinKind::Lt => "<",
        crate::interpreter::BinKind::Le => "<=",
    };
    slice_to_vec(s.as_bytes())
}

/// The spelling of a compound operator; mirrors [`spec_compound_op_text`].
fn compound_op_bytes(k: crate::interpreter::BinKind) -> (r: Vec<u8>)
    ensures
        r@ == spec_compound_op_text(k),
{
    let s: &str = match k {
        crate::interpreter::BinKind::Add => "++",
        crate::interpreter::BinKind::Sub => "-=",
        crate::interpreter::BinKind::Mul => "*=",
        crate::interpreter::BinKind::Div => "/=",
        crate::interpreter::BinKind::Rem => "%=",
        crate::interpreter::BinKind::Shl => "<<=",
        crate::interpreter::BinKind::Shr => ">>=",
        crate::interpreter::BinKind::BitAnd => "&=",
        crate::interpreter::BinKind::BitOr => "|=",
        crate::interpreter::BinKind::BitXor => "^=",
        _ => "=",
    };
    slice_to_vec(s.as_bytes())
}

/// The comma-separated parameter names; mirrors [`spec_disp_params`].
fn disp_params(
    params: &Vec<Span<usize>>,
    syms: &Vec<Vec<u8>>,
    plo: usize,
    plen: usize,
    i: usize,
) -> (r: Vec<u8>)
    ensures
        r@ == spec_disp_params(params@, syms_view(syms@), plo as int, plen as int, i as int),
    decreases plen - i,
{
    if i >= plen {
        Vec::new()
    } else {
        let nm: Vec<u8> = if plo < params.len() && params.len() - plo > i {
            sym_bytes(syms, params[plo + i].0)
        } else {
            Vec::new()
        };
        if i == plen - 1 {
            nm
        } else {
            let mut r = nm;
            push_bytes(&mut r, ", ".as_bytes());
            let rest = disp_params(params, syms, plo, plen, i + 1);
            push_bytes(&mut r, rest.as_slice());
            assert(r@ =~= spec_disp_params(
                params@,
                syms_view(syms@),
                plo as int,
                plen as int,
                i as int,
            ));
            r
        }
    }
}

/// Reconstruct the canonical text of the node `id`, indented to `depth`;
/// mirrors [`spec_disp`].
#[verifier::rlimit(100)]
pub fn disp_node(ast: &Ast, id: usize, depth: usize, fuel: usize) -> (r: Vec<u8>)
    ensures
        r@ == spec_disp(ast.view_s(), syms_view(ast.syms@), id as int, depth as nat, fuel as nat),
    decreases fuel, 0int,
{
    let ghost gview = ast.view_s();
    let ghost gsyms = syms_view(ast.syms@);
    if fuel == 0 || id >= ast.nodes.len() {
        let mut r = tabs_x(depth);
        push_bytes(&mut r, "@".as_bytes());
        assert(r@ =~= spec_disp(gview, gsyms, id as int, depth as nat, fuel as nat));
        return r;
    }
    let e = ast.nodes[id].0;
    let mut body: Vec<u8> = Vec::new();
    match crate::interpreter::as_binary_x(&e) {
        Some((k, lhs, rhs)) => {
            let a = disp_node(ast, lhs, 0, fuel - 1);
            body = a;
            push_bytes(&mut body, " ".as_bytes());
            let op = bin_op_bytes(k);
            push_bytes(&mut body, op.as_slice());
            push_bytes(&mut body, " ".as_bytes());
            let b = disp_node(ast, rhs, 0, fuel - 1);
            push_bytes(&mut body, b.as_slice());
        },
        None => {
            match crate::interpreter::as_compound_x(&e) {
                Some((k, ident, expr)) => {
                    body = sym_bytes(&ast.syms, ident.0);
                    push_bytes(&mut body, " ".as_bytes());
                    let op = compound_op_bytes(k);
                    push_bytes(&mut body, op.as_slice());
                    push_bytes(&mut body, " ".as_bytes());
                    let x = disp_node(ast, expr, 0, fuel - 1);
                    push_bytes(&mut body, x.as_slice());
                    push_bytes(&mut body, ";".as_bytes());
                },
                None => {
                    match e {
                        Expr::Access { ident } => {
                            body = sym_bytes(&ast.syms, ident.0);
                        },
                        Expr::Literal { value } => {
                            body = atom_text(&value, &ast.syms);
                        },
                        Expr::Print { value, .. } => {
                            body = slice_to_vec("print(".as_bytes());
                            let x = disp_node(ast, value, 0, fuel - 1);
                            push_bytes(&mut body, x.as_slice());
                            push_bytes(&mut body, ");".as_bytes());
                        },
                        Expr::Return { value, .. } => {
                            body = slice_to_vec("return ".as_bytes());
                            let x = disp_node(ast, value, 0, fuel - 1);
                            push_bytes(&mut body, x.as_slice());
                            push_bytes(&mut body, ";".as_bytes());
                        },
                        Expr::Group { expr, .. } => {
                            body = slice_to_vec("(".as_bytes());
                            let x = disp_node(ast, expr, 0, fuel - 1);
                            push_bytes(&mut body, x.as_slice());
                            push_bytes(&mut body, ")".as_bytes());
                        },
                        Expr::Block { exprs_lo, exprs_len, .. } => {
                            body = slice_to_vec("{\n".as_bytes());
                            let x = disp_lines(ast, exprs_lo, exprs_len, 0, bump_x(depth), fuel - 1);
                            push_bytes(&mut body, x.as_slice());
                            push_bytes(&mut body, "\n".as_bytes());
                            let t = tabs_x(depth);
                            push_bytes(&mut body, t.as_slice());
                            push_bytes(&mut body, "}".as_bytes());
                        },
                        Expr::If { condition, then, other, .. } => {
                            body = slice_to_vec("if (".as_bytes());
                            let c = disp_node(ast, condition, 0, fuel - 1);
                            push_bytes(&mut body, c.as_slice());
                            push_bytes(&mut body, ") ".as_bytes());
                            let t = disp_node(ast, then, depth, fuel - 1);
                            push_bytes(&mut body, t.as_slice());
                            match other {
                                Some(o) => {
                                    push_bytes(&mut body, " else ".as_bytes());
                                    let ox = disp_node(ast, o, depth, fuel - 1);
                                    push_bytes(&mut body, ox.as_slice());
                                },
                                None => {},
                            }
                        },
                        Expr::While { condition, then, .. } => {
                            body = slice_to_vec("while (".as_bytes());
                            let c = disp_node(ast, condition, 0, fuel - 1);
                            push_bytes(&mut body, c.as_slice());
                            push_bytes(&mut body, ") ".as_bytes());
                            let t = disp_node(ast, then, depth, fuel - 1);
                            push_bytes(&mut body, t.as_slice());
                        },
                        Expr::FnDecl { name, args_lo, args_len, block, .. } => {
                            body = slice_to_vec("fn ".as_bytes());
                            let nm = sym_bytes(&ast.syms, name.0);
                            push_bytes(&mut body, nm.as_slice());
                            push_bytes(&mut body, "(".as_bytes());
                            let ps = disp_params(&ast.params, &ast.syms, args_lo, args_len, 0);
                            push_bytes(&mut body, ps.as_slice());
                            push_bytes(&mut body, ") ".as_bytes());
                            let b = disp_node(ast, block, depth, fuel - 1);
                            push_bytes(&mut body, b.as_slice());
                        },
                        Expr::FnCall { access, args_lo, args_len, .. } => {
                            body = disp_node(ast, access, 0, fuel - 1);
                            push_bytes(&mut body, "(".as_bytes());
                            let xs = disp_items(ast, args_lo, args_len, 0, fuel - 1);
                            push_bytes(&mut body, xs.as_slice());
                            push_bytes(&mut body, ")".as_bytes());
                        },
                        Expr::Let { ident, expr, .. } => {
                            body = slice_to_vec("let ".as_bytes());
                            let nm = sym_bytes(&ast.syms, ident.0);
                            push_bytes(&mut body, nm.as_slice());
                            push_bytes(&mut body, " = ".as_bytes());
                            let x = disp_node(ast, expr, 0, fuel - 1);
                            push_bytes(&mut body, x.as_slice());
                            push_bytes(&mut body, ";".as_bytes());
                        },
                        Expr::Assign { ident, expr, .. } => {
                            body = sym_bytes(&ast.syms, ident.0);
                            push_bytes(&mut body, " = ".as_bytes());
                            let x = disp_node(ast, expr, 0, fuel - 1);
                            push_bytes(&mut body, x.as_slice());
                            push_bytes(&mut body, ";".as_bytes());
                        },
                        Expr::Not { expr, .. } => {
                            body = slice_to_vec("!".as_bytes());
                            let x = disp_node(ast, expr, 0, fuel - 1);
                            push_bytes(&mut body, x.as_slice());
                        },
                        Expr::Neg { expr, .. } => {
                            body = slice_to_vec("-".as_bytes());
                            let x = disp_node(ast, expr, 0, fuel - 1);
                            push_bytes(&mut body, x.as_slice());
                        },
                        Expr::Object { exprs_lo, exprs_len, .. } => {
                            body = slice_to_vec("struct {\n".as_bytes());
                            let x = disp_lines(ast, exprs_lo, exprs_len, 0, bump_x(depth), fuel - 1);
                            push_bytes(&mut body, x.as_slice());
                            push_bytes(&mut body, "\n".as_bytes());
                            let t = tabs_x(depth);
                            push_bytes(&mut body, t.as_slice());
                            push_bytes(&mut body, "}".as_bytes());
                        },
                        Expr::SetLit { exprs_lo, exprs_len, .. } => {
                            body = slice_to_vec("set {\n".as_bytes());
                            let x = disp_lines(ast, exprs_lo, exprs_len, 0, bump_x(depth), fuel - 1);
                            push_bytes(&mut body, x.as_slice());
                            push_bytes(&mut body, "\n".as_bytes());
                            let t = tabs_x(depth);
                            push_bytes(&mut body, t.as_slice());
                            push_bytes(&mut body, "}".as_bytes());
                        },
                        Expr::Chain { parent, child } => {
                            body = disp_node(ast, parent, 0, fuel - 1);
                            push_bytes(&mut body, ":".as_bytes());
                            let x = disp_node(ast, child, 0, fuel - 1);
                            push_bytes(&mut body, x.as_slice());
                        },
                        _ => {
                            body = slice_to_vec("@".as_bytes());
                        },
                    }
                },
            }
        },
    }
    let mut r = tabs_x(depth);
    push_bytes(&mut r, body.as_slice());
    assert(r@ =~= spec_disp(gview, gsyms, id as int, depth as nat, fuel as nat));
    r
}

/// Child nodes one per line; mirrors [`spec_disp_lines`].
fn disp_lines(ast: &Ast, lo: usize, len: usize, i: usize, depth: usize, fuel: usize) -> (r: Vec<
    u8,
>)
    ensures
        r@ == spec_disp_lines(
            ast.view_s(),
            syms_view(ast.syms@),
            lo as int,
            len as int,
            i as int,
            depth as nat,
            fuel as nat,
        ),
    decreases fuel, 1int, len - i,
{
    if i >= len {
        Vec::new()
    } else if fuel == 0 {
        slice_to_vec("@".as_bytes())
    } else {
        let one = disp_node(ast, crate::interpreter::kid_get(ast, lo, i), depth, fuel - 1);
        if i == len - 1 {
            one
        } else {
            let mut r = one;
            push_bytes(&mut r, "\n".as_bytes());
            let rest = disp_lines(ast, lo, len, i + 1, depth, fuel - 1);
            push_bytes(&mut r, rest.as_slice());
            assert(r@ =~= spec_disp_lines(
                ast.view_s(),
                syms_view(ast.syms@),
                lo as int,
                len as int,
                i as int,
                depth as nat,
                fuel as nat,
            ));
            r
        }
    }
}

/// Child nodes comma-separated; mirrors [`spec_disp_items`].
fn disp_items(ast: &Ast, lo: usize, len: usize, i: usize, fuel: usize) -> (r: Vec<u8>)
    ensures
        r@ == spec_disp_items(
            ast.view_s(),
            syms_view(ast.syms@),
            lo as int,
            len as int,
            i as int,
            fuel as nat,
        ),
    decreases fuel, 1int, len - i,
{
    if i >= len {
        Vec::new()
    } else if fuel == 0 {
        slice_to_vec("@".as_bytes())
    } else {
        let one = disp_node(ast, crate::interpreter::kid_get(ast, lo, i), 0, fuel - 1);
        if i == len - 1 {
            one
        } else {
            let mut r = one;
            push_bytes(&mut r, ", ".as_bytes());
            let rest = disp_items(ast, lo, len, i + 1, fuel - 1);
            push_bytes(&mut r, rest.as_slice());
            assert(r@ =~= spec_disp_items(
                ast.view_s(),
                syms_view(ast.syms@),
                lo as int,
                len as int,
                i as int,
                fuel as nat,
            ));
            r
        }
    }
}

/// Reconstruct the canonical text of one node of the tree, with a recursion
/// budget wide enough for any tree the parser produces.
pub fn disp(ast: &Ast, id: usize) -> (r: Vec<u8>)
    ensures
        r@ == spec_disp(
            ast.view_s(),
            syms_view(ast.syms@),
            id as int,
            0,
            (if ast.view_s().nodes.len() < usize::MAX as nat {
                ast.view_s().nodes.len() + 1
            } else {
                usize::MAX as nat
            }) as nat,
        ),
{
    let n = ast.nodes.len();
    let fuel = if n < usize::MAX {
        n + 1
    } else {
        usize::MAX
    };
    disp_node(ast, id, 0, fuel)
}

} // verus!
