//! The token alphabet produced by the lexer, and the symbol table that token
//! payloads point into.

use vstd::prelude::*;
use crate::common::VeaErr;
use crate::common::slice_eq;
use crate::common::slice_to_vec;

verus! {

use vstd::string::StringSliceAdditionalSpecFns;

/// One lexical token.
///
/// Identifier and string payloads are symbol-table indices, so a token is a
/// plain copyable value; the table of symbol texts travels beside the token
/// sequence in [`crate::lexer::LexOut`].
#[derive(Clone, Copy, PartialEq, Eq, Debug, Structural)]
pub enum Token {
    /// An identifier; the payload indexes the symbol table.
    Ident(usize),
    /// An integer literal.
    Number(i64),
    /// A string literal; the payload indexes the symbol table.
    Str(usize),

    Let,
    If,
    Else,
    Print,
    True,
    False,
    While,
    For,
    Fn,
    Return,
    Struct,
    SetKw,

    Quote,

    Plus,
    PlusEq,
    Minus,
    MinusEq,
    Star,
    StarEq,
    Slash,
    SlashEq,
    Pipe,
    PipeEq,
    And,
    AndEq,
    Caret,
    CaretEq,
    Percent,
    PercentEq,
    Shl,
    ShlEq,
    Shr,
    ShrEq,

    Eq,
    Bang,
    Underscore,
    EqEq,
    Ne,
    Gt,
    Ge,
    Lt,
    Le,
    Tilde,
    Question,

    LeftBrace,
    RightBrace,
    LeftBracket,
    RightBracket,
    LeftParen,
    RightParen,
    Comma,
    Semi,

    /// An embedded lexical error marker carrying its reason.
    Error(VeaErr),
}

/// The spec-level view of a symbol table: the sequence of symbol texts.
pub open spec fn syms_view(syms: Seq<Vec<u8>>) -> Seq<Seq<u8>> {
    syms.map_values(|v: Vec<u8>| v@)
}

/// Index of the first symbol equal to `w` at or after position `i`, if any.
pub open spec fn spec_find_sym_from(syms: Seq<Seq<u8>>, w: Seq<u8>, i: int) -> Option<int>
    decreases syms.len() - i,
{
    if i < 0 || i >= syms.len() {
        Option::None
    } else if syms[i] == w {
        Option::Some(i)
    } else {
        spec_find_sym_from(syms, w, i + 1)
    }
}

/// Index of the first symbol equal to `w`, if any.
pub open spec fn spec_find_sym(syms: Seq<Seq<u8>>, w: Seq<u8>) -> Option<int> {
    spec_find_sym_from(syms, w, 0)
}

/// The table after interning `w`: unchanged when the text is already present,
/// extended by one entry otherwise.
pub open spec fn spec_intern_syms(syms: Seq<Seq<u8>>, w: Seq<u8>) -> Seq<Seq<u8>> {
    match spec_find_sym(syms, w) {
        Option::Some(_) => syms,
        Option::None => syms.push(w),
    }
}

/// The index that interning `w` yields.
pub open spec fn spec_intern_id(syms: Seq<Seq<u8>>, w: Seq<u8>) -> int {
    match spec_find_sym(syms, w) {
        Option::Some(i) => i,
        Option::None => syms.len() as int,
    }
}

/// Intern a symbol text: return the index of its unique entry in the table,
/// appending a fresh entry when the text is new.
pub fn intern(syms: &mut Vec<Vec<u8>>, w: &[u8]) -> (id: usize)
    ensures
        syms_view(final(syms)@) == spec_intern_syms(syms_view(old(syms)@), w@),
        id as int == spec_intern_id(syms_view(old(syms)@), w@),
        id < final(syms)@.len(),
        syms_view(final(syms)@)[id as int] == w@,
{
    let ghost sv = syms_view(syms@);
    let mut i: usize = 0;
    while i < syms.len()
        invariant
            sv == syms_view(syms@),
            i <= syms@.len(),
            sv.len() == syms@.len(),
            forall|j: int| 0 <= j < i ==> sv[j] != w@,
            spec_find_sym_from(sv, w@, 0) == spec_find_sym_from(sv, w@, i as int),
        decreases syms@.len() - i,
    {
        assert(sv[i as int] == syms@[i as int]@);
        if slice_eq(syms[i].as_slice(), w) {
            assert(spec_find_sym(sv, w@) == Option::Some(i as int));
            return i;
        }
        i = i + 1;
    }
    assert(spec_find_sym(sv, w@) == Option::<int>::None);
    let id = syms.len();
    syms.push(slice_to_vec(w));
    assert(syms_view(syms@) =~= sv.push(w@));
    id
}

/// Interning the same text twice yields the same index and leaves the table
/// unchanged the second time.
pub proof fn lemma_intern_stable(syms: Seq<Seq<u8>>, w: Seq<u8>)
    ensures
        spec_find_sym(spec_intern_syms(syms, w), w)
            == Option::Some(spec_intern_id(syms, w)),
        spec_intern_syms(spec_intern_syms(syms, w), w) == spec_intern_syms(syms, w),
    decreases syms.len(),
{
    lemma_find_sym_push(syms, w, 0);
}

proof fn lemma_find_sym_push(syms: Seq<Seq<u8>>, w: Seq<u8>, i: int)
    requires
        0 <= i <= syms.len(),
    ensures
        spec_find_sym_from(syms, w, i) is Some
            ==> spec_find_sym_from(syms.push(w), w, i) == spec_find_sym_from(syms, w, i),
        spec_find_sym_from(syms, w, i) is None
            ==> spec_find_sym_from(syms.push(w), w, i) == Option::Some(syms.len() as int),
    decreases syms.len() - i,
{
    if i < syms.len() {
        assert(syms.push(w)[i] == syms[i]);
        lemma_find_sym_push(syms, w, i + 1);
    } else {
        assert(syms.push(w)[i] == w);
    }
}

/// The spec-level canonical text of a token, given the symbol table.
pub open spec fn spec_token_text(t: Token, syms: Seq<Seq<u8>>) -> Seq<u8> {
    match t {
        Token::Ident(s) => if 0 <= s < syms.len() { syms[s as int] } else { Seq::empty() },
        Token::Number(n) => crate::text::spec_i64_text(n as int),
        Token::Str(s) => (
            "'".spec_bytes()
                + (if 0 <= s < syms.len() { syms[s as int] } else { Seq::<u8>::empty() })
                + "'".spec_bytes()
        ),
        Token::Let => "let".spec_bytes(),
        Token::If => "if".spec_bytes(),
        Token::Else => "else".spec_bytes(),
        Token::Print => "print".spec_bytes(),
        Token::True => "true".spec_bytes(),
        Token::False => "false".spec_bytes(),
        Token::While => "while".spec_bytes(),
        Token::For => "for".spec_bytes(),
        Token::Fn => "fn".spec_bytes(),
        Token::Return => "return".spec_bytes(),
        Token::Struct => "struct".spec_bytes(),
        Token::SetKw => "set".spec_bytes(),
        Token::Quote => "'".spec_bytes(),
        Token::Plus => "+".spec_bytes(),
        Token::PlusEq => "++".spec_bytes(),
        Token::Minus => "-".spec_bytes(),
        Token::MinusEq => "-=".spec_bytes(),
        Token::Star => "*".spec_bytes(),
        Token::StarEq => "*=".spec_bytes(),
        Token::Slash => "/".spec_bytes(),
        Token::SlashEq => "/=".spec_bytes(),
        Token::Pipe => "|".spec_bytes(),
        Token::PipeEq => "|=".spec_bytes(),
        Token::And => "&".spec_bytes(),
        Token::AndEq => "&=".spec_bytes(),
        Token::Caret => "^".spec_bytes(),
        Token::CaretEq => "^=".spec_bytes(),
        Token::Percent => "%".spec_bytes(),
        Token::PercentEq => "%=".spec_bytes(),
        Token::Shl => "<<".spec_bytes(),
        Token::ShlEq => "<<=".spec_bytes(),
        Token::Shr => ">>".spec_bytes(),
        Token::ShrEq => ">>=".spec_bytes(),
        Token::Eq => "=".spec_bytes(),
        Token::Bang => "!".spec_bytes(),
        Token::Underscore => "_".spec_bytes(),
        Token::EqEq => "==".spec_bytes(),
        Token::Ne => "!=".spec_bytes(),
        Token::Gt => ">".spec_bytes(),
        Token::Ge => ">=".spec_bytes(),
        Token::Lt => "<".spec_bytes(),
        Token::Le => "<=".spec_bytes(),
        Token::Tilde => "~".spec_bytes(),
        Token::Question => "?".spec_bytes(),
        Token::LeftBrace => "{".spec_bytes(),
        Token::RightBrace => "}".spec_bytes(),
        Token::LeftBracket => "[".spec_bytes(),
        Token::RightBracket => "]".spec_bytes(),
        Token::LeftParen => "(".spec_bytes(),
        Token::RightParen => ")".spec_bytes(),
        Token::Comma => ",".spec_bytes(),
        Token::Semi => ";".spec_bytes(),
        Token::Error(_) => Seq::empty(),
    }
}

/// The canonical text of a token: what the token would look like in source,
/// with the quirks of the engine's own display kept (a `+=` token renders as
/// `++`, an error marker renders as nothing).
pub fn token_text(t: &Token, syms: &Vec<Vec<u8>>) -> (r: Vec<u8>)
    ensures
        r@ == spec_token_text(*t, syms_view(syms@)),
{
    match t {
        Token::Ident(s) => {
            if *s < syms.len() {
                slice_to_vec(syms[*s].as_slice())
            } else {
                Vec::new()
            }
        },
        Token::Number(n) => crate::text::i64_text(*n),
        Token::Str(s) => {
            let mut r = slice_to_vec("'".as_bytes());
            if *s < syms.len() {
                crate::common::push_bytes(&mut r, syms[*s].as_slice());
            }
            crate::common::push_bytes(&mut r, "'".as_bytes());
            assert(r@ =~= spec_token_text(*t, syms_view(syms@)));
            r
        },
        Token::Let => slice_to_vec("let".as_bytes()),
        Token::If => slice_to_vec("if".as_bytes()),
        Token::Else => slice_to_vec("else".as_bytes()),
        Token::Print => slice_to_vec("print".as_bytes()),
        Token::True => slice_to_vec("true".as_bytes()),
        Token::False => slice_to_vec("false".as_bytes()),
        Token::While => slice_to_vec("while".as_bytes()),
        Token::For => slice_to_vec("for".as_bytes()),
        Token::Fn => slice_to_vec("fn".as_bytes()),
        Token::Return => slice_to_vec("return".as_bytes()),
        Token::Struct => slice_to_vec("struct".as_bytes()),
        Token::SetKw => slice_to_vec("set".as_bytes()),
        Token::Quote => slice_to_vec("'".as_bytes()),
        Token::Plus => slice_to_vec("+".as_bytes()),
        Token::PlusEq => slice_to_vec("++".as_bytes()),
        Token::Minus => slice_to_vec("-".as_bytes()),
        Token::MinusEq => slice_to_vec("-=".as_bytes()),
        Token::Star => slice_to_vec("*".as_bytes()),
        Token::StarEq => slice_to_vec("*=".as_bytes()),
        Token::Slash => slice_to_vec("/".as_bytes()),
        Token::SlashEq => slice_to_vec("/=".as_bytes()),
        Token::Pipe => slice_to_vec("|".as_bytes()),
        Token::PipeEq => slice_to_vec("|=".as_bytes()),
        Token::And => slice_to_vec("&".as_bytes()),
        Token::AndEq => slice_to_vec("&=".as_bytes()),
        Token::Caret => slice_to_vec("^".as_bytes()),
        Token::CaretEq => slice_to_vec("^=".as_bytes()),
        Token::Percent => slice_to_vec("%".as_bytes()),
        Token::PercentEq => slice_to_vec("%=".as_bytes()),
        Token::Shl => slice_to_vec("<<".as_bytes()),
        Token::ShlEq => slice_to_vec("<<=".as_bytes()),
        Token::Shr => slice_to_vec(">>".as_bytes()),
        Token::ShrEq => slice_to_vec(">>=".as_bytes()),
        Token::Eq => slice_to_vec("=".as_bytes()),
        Token::Bang => slice_to_vec("!".as_bytes()),
        Token::Underscore => slice_to_vec("_".as_bytes()),
        Token::EqEq => slice_to_vec("==".as_bytes()),
        Token::Ne => slice_to_vec("!=".as_bytes()),
        Token::Gt => slice_to_vec(">".as_bytes()),
        Token::Ge => slice_to_vec(">=".as_bytes()),
        Token::Lt => slice_to_vec("<".as_bytes()),
        Token::Le => slice_to_vec("<=".as_bytes()),
        Token::Tilde => slice_to_vec("~".as_bytes()),
        Token::Question => slice_to_vec("?".as_bytes()),
        Token::LeftBrace => slice_to_vec("{".as_bytes()),
        Token::RightBrace => slice_to_vec("}".as_bytes()),
        Token::LeftBracket => slice_to_vec("[".as_bytes()),
        Token::RightBracket => slice_to_vec("]".as_bytes()),
        Token::LeftParen => slice_to_vec("(".as_bytes()),
        Token::RightParen => slice_to_vec(")".as_bytes()),
        Token::Comma => slice_to_vec(",".as_bytes()),
        Token::Semi => slice_to_vec(";".as_bytes()),
        Token::Error(_) => Vec::new(),
    }
}


/// A fresh copy of a symbol table with the same texts.
pub fn copy_syms(syms: &Vec<Vec<u8>>) -> (r: Vec<Vec<u8>>)
    ensures
        syms_view(r@) == syms_view(syms@),
{
    let mut r: Vec<Vec<u8>> = Vec::new();
    let mut i: usize = 0;
    while i < syms.len()
        invariant
            i <= syms@.len(),
            r@.len() == i,
            forall|j: int| 0 <= j < i ==> r@[j]@ == #[trigger] syms@[j]@,
        decreases syms@.len() - i,
    {
        let v2 = slice_to_vec(syms[i].as_slice());
        r.push(v2);
        i = i + 1;
    }
    assert(syms_view(r@) =~= syms_view(syms@));
    r
}

} // verus!
