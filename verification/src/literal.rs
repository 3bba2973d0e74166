//! The runtime value model: the tagged value type and its typed operators.
//!
//! A value is a plain copyable tag; string, object and set payloads live in
//! the interpreter's heap ([`crate::env::Env::heap`]) and are referred to by
//! index, which mirrors shared reference-counted cells without aliasing
//! machinery. Operators are total functions that either produce a value or a
//! typed error message naming both operand types.

use vstd::prelude::*;
use crate::common::push_bytes;
use crate::common::slice_to_vec;

verus! {

use vstd::string::StringSliceAdditionalSpecFns;

/// A runtime value.
#[derive(Clone, Copy, PartialEq, Eq, Debug, Structural)]
pub enum Literal {
    Bool(bool),
    Integer(i64),
    /// A string; the payload is a heap index of a [`HeapVal::Buf`].
    Str(usize),
    /// A closure: its declared name, its parameter list (a slice of the
    /// tree's parameter table), and its body node.
    Fn { name: usize, name_span: crate::span::RawSpan, args_lo: usize, args_len: usize, body: usize },
    /// An object; the payload is a heap index of a [`HeapVal::Obj`].
    Object(usize),
    /// A set; the payload is a heap index of a [`HeapVal::Elems`].
    SetVal(usize),
    /// The none sentinel, printed `_`.
    Nil,
}

/// One heap cell: the shared payload of a string, object or set value.
#[derive(Clone, Debug)]
pub enum HeapVal {
    /// The bytes of a string value.
    Buf(Vec<u8>),
    /// The fields of an object: symbol-table key and value, keys unique.
    Obj(Vec<(usize, Literal)>),
    /// The elements of a set, pairwise distinct under value equality.
    Elems(Vec<Literal>),
}

/// The mathematical image of a heap cell.
pub enum HeapValS {
    Buf(Seq<u8>),
    Obj(Seq<(usize, Literal)>),
    Elems(Seq<Literal>),
}

impl View for HeapVal {
    type V = HeapValS;

    open spec fn view(&self) -> HeapValS {
        match self {
            HeapVal::Buf(b) => HeapValS::Buf(b@),
            HeapVal::Obj(f) => HeapValS::Obj(f@),
            HeapVal::Elems(e) => HeapValS::Elems(e@),
        }
    }
}

impl DeepView for HeapVal {
    type V = HeapValS;

    open spec fn deep_view(&self) -> HeapValS {
        self.view()
    }
}

/// The bytes behind a string value's heap index, or empty bytes where the
/// index does not point at string contents.
pub open spec fn bytes_at(heap: Seq<HeapValS>, h: int) -> Seq<u8> {
    if 0 <= h < heap.len() {
        match heap[h] {
            HeapValS::Buf(b) => b,
            _ => Seq::empty(),
        }
    } else {
        Seq::empty()
    }
}

/// The spec-level type name of a value, as the messages spell it.
pub open spec fn spec_type_name(v: Literal) -> Seq<u8> {
    match v {
        Literal::Bool(_) => "bool".spec_bytes(),
        Literal::Integer(_) => "int".spec_bytes(),
        Literal::Str(_) => "str".spec_bytes(),
        Literal::Fn { .. } => "fn".spec_bytes(),
        Literal::Object(_) => "object".spec_bytes(),
        Literal::SetVal(_) => "set".spec_bytes(),
        Literal::Nil => "_".spec_bytes(),
    }
}

/// The type name of a value as a character sequence.
pub open spec fn spec_type_chars(v: Literal) -> Seq<char> {
    match v {
        Literal::Bool(_) => "bool"@,
        Literal::Integer(_) => "int"@,
        Literal::Str(_) => "str"@,
        Literal::Fn { .. } => "fn"@,
        Literal::Object(_) => "object"@,
        Literal::SetVal(_) => "set"@,
        Literal::Nil => "_"@,
    }
}

/// The message of an unsupported binary combination:
/// ``cannot <verb> `<type> <op> <type>` ``.
pub open spec fn spec_binop_msg(verb: Seq<u8>, a: Literal, op: Seq<u8>, b: Literal) -> Seq<u8> {
    "cannot ".spec_bytes() + verb + " `".spec_bytes() + spec_type_name(a) + " ".spec_bytes() + op
        + " ".spec_bytes() + spec_type_name(b) + "`".spec_bytes()
}

/// The message of an unsupported unary combination:
/// ``cannot <verb> `<op><type>` ``.
pub open spec fn spec_unop_msg(verb: Seq<u8>, op: Seq<u8>, a: Literal) -> Seq<u8> {
    "cannot ".spec_bytes() + verb + " `".spec_bytes() + op + spec_type_name(a) + "`".spec_bytes()
}

/// What addition yields: integers add (wrapping on overflow, as the machine
/// word does), strings concatenate onto a fresh heap cell, anything else is a
/// typed error.
pub open spec fn spec_add(heap: Seq<HeapValS>, a: Literal, b: Literal) -> (
    Seq<HeapValS>,
    Result<Literal, Seq<u8>>,
) {
    match (a, b) {
        (Literal::Integer(x), Literal::Integer(y)) => (
            heap,
            Result::Ok(Literal::Integer(vstd::wrapping::i64_specs::wrapping_add(x, y))),
        ),
        (Literal::Str(x), Literal::Str(y)) => (
            heap.push(HeapValS::Buf(bytes_at(heap, x as int) + bytes_at(heap, y as int))),
            Result::Ok(Literal::Str(heap.len() as usize)),
        ),
        _ => (heap, Result::Err(spec_binop_msg("add".spec_bytes(), a, "+".spec_bytes(), b))),
    }
}

/// What subtraction yields.
pub open spec fn spec_sub(a: Literal, b: Literal) -> Result<Literal, Seq<u8>> {
    match (a, b) {
        (Literal::Integer(x), Literal::Integer(y)) => Result::Ok(
            Literal::Integer(vstd::wrapping::i64_specs::wrapping_sub(x, y)),
        ),
        _ => Result::Err(spec_binop_msg("subtract".spec_bytes(), a, "-".spec_bytes(), b)),
    }
}

/// What multiplication yields.
pub open spec fn spec_mul(a: Literal, b: Literal) -> Result<Literal, Seq<u8>> {
    match (a, b) {
        (Literal::Integer(x), Literal::Integer(y)) => Result::Ok(
            Literal::Integer(vstd::wrapping::i64_specs::wrapping_mul(x, y)),
        ),
        _ => Result::Err(spec_binop_msg("multiply".spec_bytes(), a, "*".spec_bytes(), b)),
    }
}

/// What division yields: an error on a zero divisor, the wrapped quotient on
/// the one overflowing pair, the exact quotient otherwise.
pub open spec fn spec_div(a: Literal, b: Literal) -> Result<Literal, Seq<u8>> {
    match (a, b) {
        (Literal::Integer(x), Literal::Integer(y)) => {
            if y == 0 {
                Result::Err("cannot divide by zero".spec_bytes())
            } else {
                match x.checked_div(y) {
                    Option::Some(q) => Result::Ok(Literal::Integer(q)),
                    Option::None => Result::Ok(Literal::Integer(i64::MIN)),
                }
            }
        },
        _ => Result::Err(spec_binop_msg("divide".spec_bytes(), a, "/".spec_bytes(), b)),
    }
}

/// What the remainder operator yields.
pub open spec fn spec_rem(a: Literal, b: Literal) -> Result<Literal, Seq<u8>> {
    match (a, b) {
        (Literal::Integer(x), Literal::Integer(y)) => {
            if y == 0 {
                Result::Err("cannot divide by zero".spec_bytes())
            } else {
                match x.checked_rem(y) {
                    Option::Some(q) => Result::Ok(Literal::Integer(q)),
                    Option::None => Result::Ok(Literal::Integer(0)),
                }
            }
        },
        _ => Result::Err(
            spec_binop_msg("get remainder for".spec_bytes(), a, "%".spec_bytes(), b),
        ),
    }
}

/// What a left shift yields: the shift distance is masked to the word width,
/// as the machine instruction does.
pub open spec fn spec_shl(a: Literal, b: Literal) -> Result<Literal, Seq<u8>> {
    match (a, b) {
        (Literal::Integer(x), Literal::Integer(y)) => Result::Ok(
            Literal::Integer(vstd::wrapping::i64_specs::wrapping_shl(x, (y & 63) as u32)),
        ),
        _ => Result::Err(spec_binop_msg("bit-shift-left".spec_bytes(), a, "<<".spec_bytes(), b)),
    }
}

/// What a right shift yields.
pub open spec fn spec_shr(a: Literal, b: Literal) -> Result<Literal, Seq<u8>> {
    match (a, b) {
        (Literal::Integer(x), Literal::Integer(y)) => Result::Ok(
            Literal::Integer(vstd::wrapping::i64_specs::wrapping_shr(x, (y & 63) as u32)),
        ),
        _ => Result::Err(spec_binop_msg("bit-shift-right".spec_bytes(), a, ">>".spec_bytes(), b)),
    }
}

/// What bitwise and yields: integers bitwise, booleans logically.
pub open spec fn spec_bitand(a: Literal, b: Literal) -> Result<Literal, Seq<u8>> {
    match (a, b) {
        (Literal::Integer(x), Literal::Integer(y)) => Result::Ok(Literal::Integer(x & y)),
        (Literal::Bool(x), Literal::Bool(y)) => Result::Ok(Literal::Bool(x && y)),
        _ => Result::Err(spec_binop_msg("bit-and".spec_bytes(), a, "&".spec_bytes(), b)),
    }
}

/// What bitwise or yields.
pub open spec fn spec_bitor(a: Literal, b: Literal) -> Result<Literal, Seq<u8>> {
    match (a, b) {
        (Literal::Integer(x), Literal::Integer(y)) => Result::Ok(Literal::Integer(x | y)),
        (Literal::Bool(x), Literal::Bool(y)) => Result::Ok(Literal::Bool(x || y)),
        _ => Result::Err(spec_binop_msg("bit-or".spec_bytes(), a, "|".spec_bytes(), b)),
    }
}

/// What bitwise xor yields.
pub open spec fn spec_bitxor(a: Literal, b: Literal) -> Result<Literal, Seq<u8>> {
    match (a, b) {
        (Literal::Integer(x), Literal::Integer(y)) => Result::Ok(Literal::Integer(x ^ y)),
        (Literal::Bool(x), Literal::Bool(y)) => Result::Ok(Literal::Bool(x != y)),
        _ => Result::Err(spec_binop_msg("bit-xor".spec_bytes(), a, "^".spec_bytes(), b)),
    }
}

/// What equality testing yields: defined on booleans, strings and integers.
pub open spec fn spec_req(heap: Seq<HeapValS>, a: Literal, b: Literal) -> Result<
    Literal,
    Seq<u8>,
> {
    match (a, b) {
        (Literal::Bool(x), Literal::Bool(y)) => Result::Ok(Literal::Bool(x == y)),
        (Literal::Str(x), Literal::Str(y)) => Result::Ok(
            Literal::Bool(bytes_at(heap, x as int) == bytes_at(heap, y as int)),
        ),
        (Literal::Integer(x), Literal::Integer(y)) => Result::Ok(Literal::Bool(x == y)),
        _ => Result::Err(
            spec_binop_msg("test equality".spec_bytes(), a, "==".spec_bytes(), b),
        ),
    }
}

/// What inequality testing yields.
pub open spec fn spec_rne(heap: Seq<HeapValS>, a: Literal, b: Literal) -> Result<
    Literal,
    Seq<u8>,
> {
    match (a, b) {
        (Literal::Bool(x), Literal::Bool(y)) => Result::Ok(Literal::Bool(x != y)),
        (Literal::Str(x), Literal::Str(y)) => Result::Ok(
            Literal::Bool(bytes_at(heap, x as int) != bytes_at(heap, y as int)),
        ),
        (Literal::Integer(x), Literal::Integer(y)) => Result::Ok(Literal::Bool(x != y)),
        _ => Result::Err(
            spec_binop_msg("test inequality".spec_bytes(), a, "!=".spec_bytes(), b),
        ),
    }
}

/// What an ordering test yields: defined on integers only.
pub open spec fn spec_ord(a: Literal, op: Seq<u8>, lt: bool, eq: bool, gt: bool, b: Literal) -> Result<
    Literal,
    Seq<u8>,
> {
    match (a, b) {
        (Literal::Integer(x), Literal::Integer(y)) => Result::Ok(
            Literal::Bool(
                if x < y {
                    lt
                } else if x == y {
                    eq
                } else {
                    gt
                },
            ),
        ),
        _ => Result::Err(spec_binop_msg("test inequality".spec_bytes(), a, op, b)),
    }
}

/// What negation yields.
pub open spec fn spec_neg(a: Literal) -> Result<Literal, Seq<u8>> {
    match a {
        Literal::Integer(x) => Result::Ok(
            Literal::Integer(vstd::wrapping::i64_specs::wrapping_sub(0, x)),
        ),
        _ => Result::Err(spec_unop_msg("negate".spec_bytes(), "-".spec_bytes(), a)),
    }
}

/// What logical not yields.
pub open spec fn spec_not(a: Literal) -> Result<Literal, Seq<u8>> {
    match a {
        Literal::Bool(x) => Result::Ok(Literal::Bool(!x)),
        _ => Result::Err(spec_unop_msg("get inverse".spec_bytes(), "!".spec_bytes(), a)),
    }
}

impl Literal {
    /// The name of this value's type, as diagnostics spell it.
    pub fn type_of(&self) -> (r: String)
        ensures
            r@ == spec_type_chars(*self),
    {
        let s: &str = match self {
            Literal::Bool(_) => "bool",
            Literal::Integer(_) => "int",
            Literal::Str(_) => "str",
            Literal::Fn { .. } => "fn",
            Literal::Object(_) => "object",
            Literal::SetVal(_) => "set",
            Literal::Nil => "_",
        };
        s.to_owned()
    }
}

/// The name of a value's type as bytes, for building messages.
pub fn type_name_bytes(v: &Literal) -> (r: Vec<u8>)
    ensures
        r@ == spec_type_name(*v),
{
    let s: &str = match v {
        Literal::Bool(_) => "bool",
        Literal::Integer(_) => "int",
        Literal::Str(_) => "str",
        Literal::Fn { .. } => "fn",
        Literal::Object(_) => "object",
        Literal::SetVal(_) => "set",
        Literal::Nil => "_",
    };
    slice_to_vec(s.as_bytes())
}

/// Build the message of an unsupported binary combination.
pub fn binop_msg(verb: &str, a: &Literal, op: &str, b: &Literal) -> (r: Vec<u8>)
    ensures
        r@ == spec_binop_msg(verb.spec_bytes(), *a, op.spec_bytes(), *b),
{
    let mut m = slice_to_vec("cannot ".as_bytes());
    push_bytes(&mut m, verb.as_bytes());
    push_bytes(&mut m, " `".as_bytes());
    let ta = type_name_bytes(a);
    push_bytes(&mut m, ta.as_slice());
    push_bytes(&mut m, " ".as_bytes());
    push_bytes(&mut m, op.as_bytes());
    push_bytes(&mut m, " ".as_bytes());
    let tb = type_name_bytes(b);
    push_bytes(&mut m, tb.as_slice());
    push_bytes(&mut m, "`".as_bytes());
    assert(m@ =~= spec_binop_msg(verb.spec_bytes(), *a, op.spec_bytes(), *b));
    m
}

/// Build the message of an unsupported unary combination.
pub fn unop_msg(verb: &str, op: &str, a: &Literal) -> (r: Vec<u8>)
    ensures
        r@ == spec_unop_msg(verb.spec_bytes(), op.spec_bytes(), *a),
{
    let mut m = slice_to_vec("cannot ".as_bytes());
    push_bytes(&mut m, verb.as_bytes());
    push_bytes(&mut m, " `".as_bytes());
    push_bytes(&mut m, op.as_bytes());
    let ta = type_name_bytes(a);
    push_bytes(&mut m, ta.as_slice());
    push_bytes(&mut m, "`".as_bytes());
    assert(m@ =~= spec_unop_msg(verb.spec_bytes(), op.spec_bytes(), *a));
    m
}

/// The exec-to-spec bridge for operator results.
pub open spec fn res_view(r: Result<Literal, Vec<u8>>) -> Result<Literal, Seq<u8>> {
    match r {
        Result::Ok(v) => Result::Ok(v),
        Result::Err(m) => Result::Err(m@),
    }
}

impl Literal {
    /// Addition: integer addition (wrapping), string concatenation.
    pub fn add(self, rhs: Literal, env: &mut crate::env::Env) -> (r: Result<Literal, Vec<u8>>)
        ensures
            ({
                let sr = spec_add(old(env).view_s().heap, self, rhs);
                &&& final(env).view_s().heap == sr.0
                &&& final(env).view_s().frames == old(env).view_s().frames
                &&& final(env).view_s().stdout == old(env).view_s().stdout
                &&& res_view(r) == sr.1
            }),
    {
        match (self, rhs) {
            (Literal::Integer(x), Literal::Integer(y)) => Ok(
                Literal::Integer(x.wrapping_add(y)),
            ),
            (Literal::Str(x), Literal::Str(y)) => {
                let a = env.buf_bytes(x);
                let b = env.buf_bytes(y);
                let mut c = a;
                push_bytes(&mut c, b.as_slice());
                let id = env.heap_alloc(HeapVal::Buf(c));
                Ok(Literal::Str(id))
            },
            _ => Err(binop_msg("add", &self, "+", &rhs)),
        }
    }

    /// Subtraction, defined on integers (wrapping).
    pub fn sub(self, rhs: Literal) -> (r: Result<Literal, Vec<u8>>)
        ensures
            res_view(r) == spec_sub(self, rhs),
    {
        match (self, rhs) {
            (Literal::Integer(x), Literal::Integer(y)) => Ok(
                Literal::Integer(x.wrapping_sub(y)),
            ),
            _ => Err(binop_msg("subtract", &self, "-", &rhs)),
        }
    }

    /// Multiplication, defined on integers (wrapping).
    pub fn mul(self, rhs: Literal) -> (r: Result<Literal, Vec<u8>>)
        ensures
            res_view(r) == spec_mul(self, rhs),
    {
        match (self, rhs) {
            (Literal::Integer(x), Literal::Integer(y)) => Ok(
                Literal::Integer(x.wrapping_mul(y)),
            ),
            _ => Err(binop_msg("multiply", &self, "*", &rhs)),
        }
    }

    /// Division, defined on integers; a zero divisor is an error.
    pub fn div(self, rhs: Literal) -> (r: Result<Literal, Vec<u8>>)
        ensures
            res_view(r) == spec_div(self, rhs),
    {
        match (self, rhs) {
            (Literal::Integer(x), Literal::Integer(y)) => {
                if y == 0 {
                    Err(slice_to_vec("cannot divide by zero".as_bytes()))
                } else {
                    match x.checked_div(y) {
                        Some(q) => Ok(Literal::Integer(q)),
                        None => Ok(Literal::Integer(i64::MIN)),
                    }
                }
            },
            _ => Err(binop_msg("divide", &self, "/", &rhs)),
        }
    }

    /// Remainder, defined on integers; a zero divisor is an error.
    pub fn rem(self, rhs: Literal) -> (r: Result<Literal, Vec<u8>>)
        ensures
            res_view(r) == spec_rem(self, rhs),
    {
        match (self, rhs) {
            (Literal::Integer(x), Literal::Integer(y)) => {
                if y == 0 {
                    Err(slice_to_vec("cannot divide by zero".as_bytes()))
                } else {
                    match x.checked_rem(y) {
                        Some(q) => Ok(Literal::Integer(q)),
                        None => Ok(Literal::Integer(0)),
                    }
                }
            },
            _ => Err(binop_msg("get remainder for", &self, "%", &rhs)),
        }
    }

    /// Left shift, defined on integers; the distance is masked to the word.
    pub fn shl(self, rhs: Literal) -> (r: Result<Literal, Vec<u8>>)
        ensures
            res_view(r) == spec_shl(self, rhs),
    {
        match (self, rhs) {
            (Literal::Integer(x), Literal::Integer(y)) => Ok(
                Literal::Integer(x.wrapping_shl((y & 63) as u32)),
            ),
            _ => Err(binop_msg("bit-shift-left", &self, "<<", &rhs)),
        }
    }

    /// Right shift, defined on integers; the distance is masked to the word.
    pub fn shr(self, rhs: Literal) -> (r: Result<Literal, Vec<u8>>)
        ensures
            res_view(r) == spec_shr(self, rhs),
    {
        match (self, rhs) {
            (Literal::Integer(x), Literal::Integer(y)) => Ok(
                Literal::Integer(x.wrapping_shr((y & 63) as u32)),
            ),
            _ => Err(binop_msg("bit-shift-right", &self, ">>", &rhs)),
        }
    }

    /// Bitwise and on integers, logical and on booleans.
    pub fn bitand(self, rhs: Literal) -> (r: Result<Literal, Vec<u8>>)
        ensures
            res_view(r) == spec_bitand(self, rhs),
    {
        match (self, rhs) {
            (Literal::Integer(x), Literal::Integer(y)) => Ok(Literal::Integer(x & y)),
            (Literal::Bool(x), Literal::Bool(y)) => Ok(Literal::Bool(x && y)),
            _ => Err(binop_msg("bit-and", &self, "&", &rhs)),
        }
    }

    /// Bitwise or on integers, logical or on booleans.
    pub fn bitor(self, rhs: Literal) -> (r: Result<Literal, Vec<u8>>)
        ensures
            res_view(r) == spec_bitor(self, rhs),
    {
        match (self, rhs) {
            (Literal::Integer(x), Literal::Integer(y)) => Ok(Literal::Integer(x | y)),
            (Literal::Bool(x), Literal::Bool(y)) => Ok(Literal::Bool(x || y)),
            _ => Err(binop_msg("bit-or", &self, "|", &rhs)),
        }
    }

    /// Bitwise xor on integers, inequality on booleans.
    pub fn bitxor(self, rhs: Literal) -> (r: Result<Literal, Vec<u8>>)
        ensures
            res_view(r) == spec_bitxor(self, rhs),
    {
        match (self, rhs) {
            (Literal::Integer(x), Literal::Integer(y)) => Ok(Literal::Integer(x ^ y)),
            (Literal::Bool(x), Literal::Bool(y)) => Ok(Literal::Bool(x != y)),
            _ => Err(binop_msg("bit-xor", &self, "^", &rhs)),
        }
    }

    /// Equality test, defined on booleans, strings and integers.
    pub fn req(self, rhs: Literal, env: &crate::env::Env) -> (r: Result<Literal, Vec<u8>>)
        ensures
            res_view(r) == spec_req(env.view_s().heap, self, rhs),
    {
        match (self, rhs) {
            (Literal::Bool(x), Literal::Bool(y)) => Ok(Literal::Bool(x == y)),
            (Literal::Str(x), Literal::Str(y)) => {
                let a = env.buf_bytes(x);
                let b = env.buf_bytes(y);
                Ok(Literal::Bool(crate::common::slice_eq(a.as_slice(), b.as_slice())))
            },
            (Literal::Integer(x), Literal::Integer(y)) => Ok(Literal::Bool(x == y)),
            _ => Err(binop_msg("test equality", &self, "==", &rhs)),
        }
    }

    /// Inequality test, defined on booleans, strings and integers.
    pub fn rne(self, rhs: Literal, env: &crate::env::Env) -> (r: Result<Literal, Vec<u8>>)
        ensures
            res_view(r) == spec_rne(env.view_s().heap, self, rhs),
    {
        match (self, rhs) {
            (Literal::Bool(x), Literal::Bool(y)) => Ok(Literal::Bool(x != y)),
            (Literal::Str(x), Literal::Str(y)) => {
                let a = env.buf_bytes(x);
                let b = env.buf_bytes(y);
                Ok(Literal::Bool(!crate::common::slice_eq(a.as_slice(), b.as_slice())))
            },
            (Literal::Integer(x), Literal::Integer(y)) => Ok(Literal::Bool(x != y)),
            _ => Err(binop_msg("test inequality", &self, "!=", &rhs)),
        }
    }

    /// Strict greater-than, defined on integers.
    pub fn rgt(self, rhs: Literal) -> (r: Result<Literal, Vec<u8>>)
        ensures
            res_view(r) == spec_ord(self, ">".spec_bytes(), false, false, true, rhs),
    {
        match (self, rhs) {
            (Literal::Integer(x), Literal::Integer(y)) => Ok(Literal::Bool(x > y)),
            _ => Err(binop_msg("test inequality", &self, ">", &rhs)),
        }
    }

    /// Greater-or-equal, defined on integers.
    pub fn rge(self, rhs: Literal) -> (r: Result<Literal, Vec<u8>>)
        ensures
            res_view(r) == spec_ord(self, ">=".spec_bytes(), false, true, true, rhs),
    {
        match (self, rhs) {
            (Literal::Integer(x), Literal::Integer(y)) => Ok(Literal::Bool(x >= y)),
            _ => Err(binop_msg("test inequality", &self, ">=", &rhs)),
        }
    }

    /// Strict less-than, defined on integers.
    pub fn rlt(self, rhs: Literal) -> (r: Result<Literal, Vec<u8>>)
        ensures
            res_view(r) == spec_ord(self, "<".spec_bytes(), true, false, false, rhs),
    {
        match (self, rhs) {
            (Literal::Integer(x), Literal::Integer(y)) => Ok(Literal::Bool(x < y)),
            _ => Err(binop_msg("test inequality", &self, "<", &rhs)),
        }
    }

    /// Less-or-equal, defined on integers.
    pub fn rle(self, rhs: Literal) -> (r: Result<Literal, Vec<u8>>)
        ensures
            res_view(r) == spec_ord(self, "<=".spec_bytes(), true, true, false, rhs),
    {
        match (self, rhs) {
            (Literal::Integer(x), Literal::Integer(y)) => Ok(Literal::Bool(x <= y)),
            _ => Err(binop_msg("test inequality", &self, "<=", &rhs)),
        }
    }

    /// Arithmetic negation, defined on integers (wrapping).
    pub fn neg(self) -> (r: Result<Literal, Vec<u8>>)
        ensures
            res_view(r) == spec_neg(self),
    {
        match self {
            Literal::Integer(x) => Ok(Literal::Integer((0i64).wrapping_sub(x))),
            _ => Err(unop_msg("negate", "-", &self)),
        }
    }

    /// Logical not, defined on booleans.
    pub fn not(self) -> (r: Result<Literal, Vec<u8>>)
        ensures
            res_view(r) == spec_not(self),
    {
        match self {
            Literal::Bool(x) => Ok(Literal::Bool(!x)),
            _ => Err(unop_msg("get inverse", "!", &self)),
        }
    }
}

} // verus!
