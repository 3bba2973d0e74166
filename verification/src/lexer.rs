//! The lexer: a one-shot pass that turns source bytes into an ordered, finite
//! sequence of span-tagged tokens.
//!
//! Whitespace and `//` line comments are recognized and discarded. Keyword
//! recognition takes priority over identifier recognition for exact matches.
//! On an unrecognized character, an unterminated string or an overflowing
//! numeric literal the pass does not abort: it emits an error token carrying
//! the reason together with a diagnostic, and resumes scanning, so the whole
//! input is always consumed and later valid tokens still surface.

use vstd::prelude::*;
use crate::common::VeaErr;
use crate::common::slice_eq;
use crate::span::{RawSpan, Span, Diag, DiagV};
use crate::token::{Token, syms_view, spec_intern_syms, spec_intern_id, intern};

verus! {

use vstd::string::StringSliceAdditionalSpecFns;
use vstd::slice::slice_subrange;

/// Whitespace bytes: space, tab, line feed, carriage return.
pub open spec fn is_ws(b: u8) -> bool {
    b == 32 || b == 9 || b == 10 || b == 13
}

/// Decimal digit bytes.
pub open spec fn is_digit(b: u8) -> bool {
    48 <= b <= 57
}

/// Bytes that identifiers and keywords are made of: `a`..`z` and `_`.
pub open spec fn is_word(b: u8) -> bool {
    (97 <= b <= 122) || b == 95
}

/// UTF-8 continuation bytes, grouped with the byte that starts the character.
pub open spec fn is_cont(b: u8) -> bool {
    128 <= b <= 191
}

/// End of the digit run that starts at `pos`.
pub open spec fn digits_end(src: Seq<u8>, pos: int) -> int
    decreases src.len() - pos,
{
    if pos < 0 || pos >= src.len() || !is_digit(src[pos]) {
        pos
    } else {
        digits_end(src, pos + 1)
    }
}

/// End of the identifier/keyword run that starts at `pos`.
pub open spec fn word_end(src: Seq<u8>, pos: int) -> int
    decreases src.len() - pos,
{
    if pos < 0 || pos >= src.len() || !is_word(src[pos]) {
        pos
    } else {
        word_end(src, pos + 1)
    }
}

/// Position of the first line feed at or after `pos`, or the input's end.
pub open spec fn line_end(src: Seq<u8>, pos: int) -> int
    decreases src.len() - pos,
{
    if pos < 0 || pos >= src.len() || src[pos] == 10 {
        pos
    } else {
        line_end(src, pos + 1)
    }
}

/// Position of the first single quote at or after `pos`, or the input's end.
pub open spec fn quote_end(src: Seq<u8>, pos: int) -> int
    decreases src.len() - pos,
{
    if pos < 0 || pos >= src.len() || src[pos] == 39 {
        pos
    } else {
        quote_end(src, pos + 1)
    }
}

/// End of the UTF-8 continuation-byte run that starts at `pos`.
pub open spec fn cont_end(src: Seq<u8>, pos: int) -> int
    decreases src.len() - pos,
{
    if pos < 0 || pos >= src.len() || !is_cont(src[pos]) {
        pos
    } else {
        cont_end(src, pos + 1)
    }
}

/// The numeric value of a run of decimal digit bytes.
pub open spec fn digits_val(s: Seq<u8>) -> nat
    decreases s.len(),
{
    if s.len() == 0 {
        0
    } else {
        digits_val(s.drop_last()) * 10 + (s.last() - 48) as nat
    }
}

/// The token that an identifier/keyword word denotes. Keywords win for exact
/// matches; a lone underscore is the none-literal token; anything else is an
/// identifier interned into the symbol table.
pub open spec fn spec_word_token(w: Seq<u8>, syms: Seq<Seq<u8>>) -> Token {
    if w == "let".spec_bytes() {
        Token::Let
    } else if w == "if".spec_bytes() {
        Token::If
    } else if w == "else".spec_bytes() {
        Token::Else
    } else if w == "true".spec_bytes() {
        Token::True
    } else if w == "false".spec_bytes() {
        Token::False
    } else if w == "print".spec_bytes() {
        Token::Print
    } else if w == "while".spec_bytes() {
        Token::While
    } else if w == "for".spec_bytes() {
        Token::For
    } else if w == "fn".spec_bytes() {
        Token::Fn
    } else if w == "return".spec_bytes() {
        Token::Return
    } else if w == "struct".spec_bytes() {
        Token::Struct
    } else if w == "set".spec_bytes() {
        Token::SetKw
    } else if w == "_".spec_bytes() {
        Token::Underscore
    } else {
        Token::Ident(spec_intern_id(syms, w) as usize)
    }
}

/// Whether a word is one of the reserved spellings that do not intern.
pub open spec fn spec_word_reserved(w: Seq<u8>) -> bool {
    !(spec_word_token(w, Seq::empty()) matches Token::Ident(_))
}

/// The symbol table after lexing a word: unchanged for keywords, extended by
/// interning for identifiers.
pub open spec fn spec_word_syms(w: Seq<u8>, syms: Seq<Seq<u8>>) -> Seq<Seq<u8>> {
    if spec_word_reserved(w) {
        syms
    } else {
        spec_intern_syms(syms, w)
    }
}

/// The outcome of one scanning step: at most one token, at most one
/// diagnostic, the new symbol table, and the position to resume at.
pub struct StepS {
    pub tok: Option<Span<Token>>,
    pub diag: Option<DiagV>,
    pub syms: Seq<Seq<u8>>,
    pub next: int,
}

/// A step that yields a token and nothing else.
pub open spec fn step_tok(t: Token, lo: int, hi: int, syms: Seq<Seq<u8>>) -> StepS {
    StepS {
        tok: Option::Some(Span(t, RawSpan { start: lo as usize, end: hi as usize })),
        diag: Option::None,
        syms,
        next: hi,
    }
}

/// A step that yields an error token together with its diagnostic.
pub open spec fn step_err(e: VeaErr, lo: int, hi: int, syms: Seq<Seq<u8>>) -> StepS {
    StepS {
        tok: Option::Some(Span(Token::Error(e), RawSpan { start: lo as usize, end: hi as usize })),
        diag: Option::Some(
            DiagV { span: RawSpan { start: lo as usize, end: hi as usize }, msg: e.spec_message() },
        ),
        syms,
        next: hi,
    }
}

/// One scanning step of the lexer at position `pos`.
///
/// The resume position is clamped to advance by at least one byte, which is
/// what guarantees that the pass consumes the whole input.
pub open spec fn spec_lex_step(src: Seq<u8>, pos: int, syms: Seq<Seq<u8>>) -> StepS
    recommends
        0 <= pos < src.len(),
{
    let b = src[pos];
    let st = if is_ws(b) {
        StepS { tok: Option::None, diag: Option::None, syms, next: pos + 1 }
    } else if b == 47 && pos + 1 < src.len() && src[pos + 1] == 47 {
        StepS { tok: Option::None, diag: Option::None, syms, next: line_end(src, pos) }
    } else if is_digit(b) {
        let e = digits_end(src, pos);
        let v = digits_val(src.subrange(pos, e));
        if v > 0x7fff_ffff_ffff_ffff {
            step_err(VeaErr::IntegerOverflow, pos, e, syms)
        } else {
            step_tok(Token::Number(v as i64), pos, e, syms)
        }
    } else if is_word(b) {
        let e = word_end(src, pos);
        let w = src.subrange(pos, e);
        StepS {
            tok: Option::Some(
                Span(
                    spec_word_token(w, syms),
                    RawSpan { start: pos as usize, end: e as usize },
                ),
            ),
            diag: Option::None,
            syms: spec_word_syms(w, syms),
            next: e,
        }
    } else if b == 39 {
        let e = quote_end(src, pos + 1);
        if e < src.len() {
            let w = src.subrange(pos + 1, e);
            StepS {
                tok: Option::Some(
                    Span(
                        Token::Str(spec_intern_id(syms, w) as usize),
                        RawSpan { start: pos as usize, end: (e + 1) as usize },
                    ),
                ),
                diag: Option::None,
                syms: spec_intern_syms(syms, w),
                next: e + 1,
            }
        } else {
            step_err(VeaErr::UnterminatedString, pos, src.len() as int, syms)
        }
    } else if b == 34 {
        step_err(VeaErr::InvalidQuotationMark, pos, pos + 1, syms)
    } else if b == 60 && pos + 2 < src.len() && src[pos + 1] == 60 && src[pos + 2] == 61 {
        step_tok(Token::ShlEq, pos, pos + 3, syms)
    } else if b == 62 && pos + 2 < src.len() && src[pos + 1] == 62 && src[pos + 2] == 61 {
        step_tok(Token::ShrEq, pos, pos + 3, syms)
    } else if b == 38 && pos + 1 < src.len() && src[pos + 1] == 61 {
        step_tok(Token::AndEq, pos, pos + 2, syms)
    } else if b == 33 && pos + 1 < src.len() && src[pos + 1] == 61 {
        step_tok(Token::Ne, pos, pos + 2, syms)
    } else if b == 61 && pos + 1 < src.len() && src[pos + 1] == 61 {
        step_tok(Token::EqEq, pos, pos + 2, syms)
    } else if b == 62 && pos + 1 < src.len() && src[pos + 1] == 61 {
        step_tok(Token::Ge, pos, pos + 2, syms)
    } else if b == 60 && pos + 1 < src.len() && src[pos + 1] == 61 {
        step_tok(Token::Le, pos, pos + 2, syms)
    } else if b == 94 && pos + 1 < src.len() && src[pos + 1] == 61 {
        step_tok(Token::CaretEq, pos, pos + 2, syms)
    } else if b == 43 && pos + 1 < src.len() && src[pos + 1] == 61 {
        step_tok(Token::PlusEq, pos, pos + 2, syms)
    } else if b == 37 && pos + 1 < src.len() && src[pos + 1] == 61 {
        step_tok(Token::PercentEq, pos, pos + 2, syms)
    } else if b == 45 && pos + 1 < src.len() && src[pos + 1] == 61 {
        step_tok(Token::MinusEq, pos, pos + 2, syms)
    } else if b == 42 && pos + 1 < src.len() && src[pos + 1] == 61 {
        step_tok(Token::StarEq, pos, pos + 2, syms)
    } else if b == 47 && pos + 1 < src.len() && src[pos + 1] == 61 {
        step_tok(Token::SlashEq, pos, pos + 2, syms)
    } else if b == 124 && pos + 1 < src.len() && src[pos + 1] == 61 {
        step_tok(Token::PipeEq, pos, pos + 2, syms)
    } else if b == 60 && pos + 1 < src.len() && src[pos + 1] == 60 {
        step_tok(Token::Shl, pos, pos + 2, syms)
    } else if b == 62 && pos + 1 < src.len() && src[pos + 1] == 62 {
        step_tok(Token::Shr, pos, pos + 2, syms)
    } else if b == 43 {
        step_tok(Token::Plus, pos, pos + 1, syms)
    } else if b == 45 {
        step_tok(Token::Minus, pos, pos + 1, syms)
    } else if b == 42 {
        step_tok(Token::Star, pos, pos + 1, syms)
    } else if b == 47 {
        step_tok(Token::Slash, pos, pos + 1, syms)
    } else if b == 61 {
        step_tok(Token::Eq, pos, pos + 1, syms)
    } else if b == 33 {
        step_tok(Token::Bang, pos, pos + 1, syms)
    } else if b == 62 {
        step_tok(Token::Gt, pos, pos + 1, syms)
    } else if b == 60 {
        step_tok(Token::Lt, pos, pos + 1, syms)
    } else if b == 126 {
        step_tok(Token::Tilde, pos, pos + 1, syms)
    } else if b == 124 {
        step_tok(Token::Pipe, pos, pos + 1, syms)
    } else if b == 38 {
        step_tok(Token::And, pos, pos + 1, syms)
    } else if b == 94 {
        step_tok(Token::Caret, pos, pos + 1, syms)
    } else if b == 63 {
        step_tok(Token::Question, pos, pos + 1, syms)
    } else if b == 37 {
        step_tok(Token::Percent, pos, pos + 1, syms)
    } else if b == 123 {
        step_tok(Token::LeftBrace, pos, pos + 1, syms)
    } else if b == 125 {
        step_tok(Token::RightBrace, pos, pos + 1, syms)
    } else if b == 91 {
        step_tok(Token::LeftBracket, pos, pos + 1, syms)
    } else if b == 93 {
        step_tok(Token::RightBracket, pos, pos + 1, syms)
    } else if b == 40 {
        step_tok(Token::LeftParen, pos, pos + 1, syms)
    } else if b == 41 {
        step_tok(Token::RightParen, pos, pos + 1, syms)
    } else if b == 44 {
        step_tok(Token::Comma, pos, pos + 1, syms)
    } else if b == 59 {
        step_tok(Token::Semi, pos, pos + 1, syms)
    } else {
        step_err(VeaErr::UnrecognizedCharacter, pos, cont_end(src, pos + 1), syms)
    };
    let n1 = if st.next <= pos {
        pos + 1
    } else {
        st.next
    };
    StepS { next: if n1 > src.len() { src.len() as int } else { n1 }, ..st }
}

/// Every byte of the digit run that starts at `pos` is a digit, and the run
/// ends within the input.
pub proof fn lemma_digits_end(src: Seq<u8>, pos: int)
    requires
        0 <= pos <= src.len(),
    ensures
        pos <= digits_end(src, pos) <= src.len(),
        forall|j: int| pos <= j < digits_end(src, pos) ==> is_digit(src[j]),
    decreases src.len() - pos,
{
    if pos < src.len() && is_digit(src[pos]) {
        lemma_digits_end(src, pos + 1);
    }
}

/// The lexed image of the input from `pos` on: tokens, final symbol table,
/// and diagnostics, in source order.
pub struct LexS {
    pub toks: Seq<Span<Token>>,
    pub syms: Seq<Seq<u8>>,
    pub diags: Seq<DiagV>,
}

/// The lexed image of the input from `pos` to the end.
pub open spec fn spec_lex_from(src: Seq<u8>, pos: int, syms: Seq<Seq<u8>>) -> LexS
    decreases src.len() - pos,
{
    if pos < 0 || pos >= src.len() {
        LexS { toks: Seq::empty(), syms, diags: Seq::empty() }
    } else {
        let st = spec_lex_step(src, pos, syms);
        let rest = spec_lex_from(src, st.next, st.syms);
        LexS {
            toks: match st.tok {
                Option::Some(t) => seq![t] + rest.toks,
                Option::None => rest.toks,
            },
            syms: rest.syms,
            diags: match st.diag {
                Option::Some(d) => seq![d] + rest.diags,
                Option::None => rest.diags,
            },
        }
    }
}

/// The lexed image of a whole input.
pub open spec fn spec_lex(src: Seq<u8>) -> LexS {
    spec_lex_from(src, 0, Seq::empty())
}

/// What the lexer hands on: the token sequence and the symbol table that
/// its identifier and string payloads index.
pub struct LexOut {
    pub toks: Vec<Span<Token>>,
    pub syms: Vec<Vec<u8>>,
}

/// End of the digit run that starts at `pos`.
fn scan_digits(src: &[u8], pos: usize) -> (r: usize)
    requires
        pos <= src@.len(),
    ensures
        r == digits_end(src@, pos as int),
        pos <= r <= src@.len(),
{
    let mut i = pos;
    while i < src.len() && 48 <= src[i] && src[i] <= 57
        invariant
            pos <= i <= src@.len(),
            digits_end(src@, pos as int) == digits_end(src@, i as int),
        decreases src@.len() - i,
    {
        i = i + 1;
    }
    i
}

/// End of the word run that starts at `pos`.
fn scan_word(src: &[u8], pos: usize) -> (r: usize)
    requires
        pos <= src@.len(),
    ensures
        r == word_end(src@, pos as int),
        pos <= r <= src@.len(),
{
    let mut i = pos;
    while i < src.len() && ((97 <= src[i] && src[i] <= 122) || src[i] == 95)
        invariant
            pos <= i <= src@.len(),
            word_end(src@, pos as int) == word_end(src@, i as int),
        decreases src@.len() - i,
    {
        i = i + 1;
    }
    i
}

/// First line feed at or after `pos`, or the input's end.
fn scan_line(src: &[u8], pos: usize) -> (r: usize)
    requires
        pos <= src@.len(),
    ensures
        r == line_end(src@, pos as int),
        pos <= r <= src@.len(),
{
    let mut i = pos;
    while i < src.len() && src[i] != 10
        invariant
            pos <= i <= src@.len(),
            line_end(src@, pos as int) == line_end(src@, i as int),
        decreases src@.len() - i,
    {
        i = i + 1;
    }
    i
}

/// First single quote at or after `pos`, or the input's end.
fn scan_quote(src: &[u8], pos: usize) -> (r: usize)
    requires
        pos <= src@.len(),
    ensures
        r == quote_end(src@, pos as int),
        pos <= r <= src@.len(),
{
    let mut i = pos;
    while i < src.len() && src[i] != 39
        invariant
            pos <= i <= src@.len(),
            quote_end(src@, pos as int) == quote_end(src@, i as int),
        decreases src@.len() - i,
    {
        i = i + 1;
    }
    i
}

/// End of the continuation-byte run that starts at `pos`.
fn scan_cont(src: &[u8], pos: usize) -> (r: usize)
    requires
        pos <= src@.len(),
    ensures
        r == cont_end(src@, pos as int),
        pos <= r <= src@.len(),
{
    let mut i = pos;
    while i < src.len() && 128 <= src[i] && src[i] <= 191
        invariant
            pos <= i <= src@.len(),
            cont_end(src@, pos as int) == cont_end(src@, i as int),
        decreases src@.len() - i,
    {
        i = i + 1;
    }
    i
}

/// Convert the digit run `src[pos..e]` to a value, reporting whether it
/// exceeds the integer value range.
fn digits_to_value(src: &[u8], pos: usize, e: usize) -> (r: (u64, bool))
    requires
        pos <= e <= src@.len(),
        forall|j: int| pos <= j < e ==> is_digit(src@[j]),
    ensures
        r.1 == (digits_val(src@.subrange(pos as int, e as int)) > 0x7fff_ffff_ffff_ffff),
        !r.1 ==> r.0 as nat == digits_val(src@.subrange(pos as int, e as int)),
{
    let mut acc: u64 = 0;
    let mut over = false;
    let mut i = pos;
    while i < e
        invariant
            pos <= i <= e <= src@.len(),
            forall|j: int| pos <= j < e ==> is_digit(src@[j]),
            over == (digits_val(src@.subrange(pos as int, i as int)) > 0x7fff_ffff_ffff_ffff),
            !over ==> acc as nat == digits_val(src@.subrange(pos as int, i as int)),
            !over ==> acc <= 0x7fff_ffff_ffff_ffff,
        decreases e - i,
    {
        let ghost pre = src@.subrange(pos as int, i as int);
        let ghost post = src@.subrange(pos as int, i + 1 as int);
        assert(post.drop_last() =~= pre);
        assert(post.last() == src@[i as int]);
        let d: u64 = (src[i] - 48) as u64;
        assert(d <= 9);
        if over {
            assert(digits_val(post) == digits_val(pre) * 10 + d);
            assert(digits_val(pre) * 10 >= digits_val(pre)) by (nonlinear_arith)
                requires digits_val(pre) >= 0;
        } else {
            if acc > (0x7fff_ffff_ffff_ffffu64 - d) / 10 {
                over = true;
                assert(digits_val(post) > 0x7fff_ffff_ffff_ffff) by (nonlinear_arith)
                    requires
                        digits_val(post) == digits_val(pre) * 10 + d,
                        digits_val(pre) == acc as nat,
                        acc > (0x7fff_ffff_ffff_ffffu64 - d) / 10,
                        d <= 9;
            } else {
                assert(acc * 10 + d <= 0x7fff_ffff_ffff_ffff) by (nonlinear_arith)
                    requires
                        acc <= (0x7fff_ffff_ffff_ffffu64 - d) / 10,
                        d <= 9;
                acc = acc * 10 + d;
            }
        }
        i = i + 1;
    }
    assert(src@.subrange(pos as int, e as int) == src@.subrange(pos as int, i as int));
    (acc, over)
}

/// Map a complete word to its token, interning identifiers.
fn word_token(w: &[u8], syms: &mut Vec<Vec<u8>>) -> (t: Token)
    ensures
        t == spec_word_token(w@, syms_view(old(syms)@)),
        syms_view(final(syms)@) == spec_word_syms(w@, syms_view(old(syms)@)),
{
    if slice_eq(w, "let".as_bytes()) {
        Token::Let
    } else if slice_eq(w, "if".as_bytes()) {
        Token::If
    } else if slice_eq(w, "else".as_bytes()) {
        Token::Else
    } else if slice_eq(w, "true".as_bytes()) {
        Token::True
    } else if slice_eq(w, "false".as_bytes()) {
        Token::False
    } else if slice_eq(w, "print".as_bytes()) {
        Token::Print
    } else if slice_eq(w, "while".as_bytes()) {
        Token::While
    } else if slice_eq(w, "for".as_bytes()) {
        Token::For
    } else if slice_eq(w, "fn".as_bytes()) {
        Token::Fn
    } else if slice_eq(w, "return".as_bytes()) {
        Token::Return
    } else if slice_eq(w, "struct".as_bytes()) {
        Token::Struct
    } else if slice_eq(w, "set".as_bytes()) {
        Token::SetKw
    } else if slice_eq(w, "_".as_bytes()) {
        Token::Underscore
    } else {
        Token::Ident(intern(syms, w))
    }
}

/// One scanning step at position `pos`; mirrors [`spec_lex_step`].
fn lex_step(src: &[u8], pos: usize, syms: &mut Vec<Vec<u8>>) -> (r: (
    Option<Span<Token>>,
    Option<Diag>,
    usize,
))
    requires
        pos < src@.len(),
    ensures
        ({
            let st = spec_lex_step(src@, pos as int, syms_view(old(syms)@));
            &&& r.0 == st.tok
            &&& (match r.1 {
                Option::Some(d) => st.diag == Option::Some(d@),
                Option::None => st.diag is None,
            })
            &&& syms_view(final(syms)@) == st.syms
            &&& r.2 as int == st.next
            &&& pos < r.2 <= src@.len()
        }),
{
    let n = src.len();
    let b = src[pos];
    if b == 32 || b == 9 || b == 10 || b == 13 {
        (None, None, pos + 1)
    } else if b == 47 && n - pos > 1 && src[pos + 1] == 47 {
        let e = scan_line(src, pos);
        (None, None, if e <= pos { pos + 1 } else { e })
    } else if 48 <= b && b <= 57 {
        let e = scan_digits(src, pos + 1);
        assert(e == digits_end(src@, pos as int));
        proof { lemma_digits_end(src@, pos as int); }
        let (v, over) = digits_to_value(src, pos, e);
        if over {
            let msg = VeaErr::IntegerOverflow.message();
            (
                Some(Span(Token::Error(VeaErr::IntegerOverflow), RawSpan::new(pos, e))),
                Some(Diag::new(RawSpan::new(pos, e), msg)),
                e,
            )
        } else {
            (Some(Span(Token::Number(v as i64), RawSpan::new(pos, e))), None, e)
        }
    } else if (97 <= b && b <= 122) || b == 95 {
        let e = scan_word(src, pos + 1);
        assert(e == word_end(src@, pos as int));
        let w = slice_subrange(src, pos, e);
        let t = word_token(w, syms);
        (Some(Span(t, RawSpan::new(pos, e))), None, e)
    } else if b == 39 {
        let e = scan_quote(src, pos + 1);
        if e < n {
            let w = slice_subrange(src, pos + 1, e);
            let id = intern(syms, w);
            (Some(Span(Token::Str(id), RawSpan::new(pos, e + 1))), None, e + 1)
        } else {
            let msg = VeaErr::UnterminatedString.message();
            (
                Some(Span(Token::Error(VeaErr::UnterminatedString), RawSpan::new(pos, n))),
                Some(Diag::new(RawSpan::new(pos, n), msg)),
                if n <= pos { pos + 1 } else { n },
            )
        }
    } else if b == 34 {
        let msg = VeaErr::InvalidQuotationMark.message();
        (
            Some(Span(Token::Error(VeaErr::InvalidQuotationMark), RawSpan::new(pos, pos + 1))),
            Some(Diag::new(RawSpan::new(pos, pos + 1), msg)),
            pos + 1,
        )
    } else if b == 60 && n - pos > 2 && src[pos + 1] == 60 && src[pos + 2] == 61 {
        (Some(Span(Token::ShlEq, RawSpan::new(pos, pos + 3))), None, pos + 3)
    } else if b == 62 && n - pos > 2 && src[pos + 1] == 62 && src[pos + 2] == 61 {
        (Some(Span(Token::ShrEq, RawSpan::new(pos, pos + 3))), None, pos + 3)
    } else if b == 38 && n - pos > 1 && src[pos + 1] == 61 {
        (Some(Span(Token::AndEq, RawSpan::new(pos, pos + 2))), None, pos + 2)
    } else if b == 33 && n - pos > 1 && src[pos + 1] == 61 {
        (Some(Span(Token::Ne, RawSpan::new(pos, pos + 2))), None, pos + 2)
    } else if b == 61 && n - pos > 1 && src[pos + 1] == 61 {
        (Some(Span(Token::EqEq, RawSpan::new(pos, pos + 2))), None, pos + 2)
    } else if b == 62 && n - pos > 1 && src[pos + 1] == 61 {
        (Some(Span(Token::Ge, RawSpan::new(pos, pos + 2))), None, pos + 2)
    } else if b == 60 && n - pos > 1 && src[pos + 1] == 61 {
        (Some(Span(Token::Le, RawSpan::new(pos, pos + 2))), None, pos + 2)
    } else if b == 94 && n - pos > 1 && src[pos + 1] == 61 {
        (Some(Span(Token::CaretEq, RawSpan::new(pos, pos + 2))), None, pos + 2)
    } else if b == 43 && n - pos > 1 && src[pos + 1] == 61 {
        (Some(Span(Token::PlusEq, RawSpan::new(pos, pos + 2))), None, pos + 2)
    } else if b == 37 && n - pos > 1 && src[pos + 1] == 61 {
        (Some(Span(Token::PercentEq, RawSpan::new(pos, pos + 2))), None, pos + 2)
    } else if b == 45 && n - pos > 1 && src[pos + 1] == 61 {
        (Some(Span(Token::MinusEq, RawSpan::new(pos, pos + 2))), None, pos + 2)
    } else if b == 42 && n - pos > 1 && src[pos + 1] == 61 {
        (Some(Span(Token::StarEq, RawSpan::new(pos, pos + 2))), None, pos + 2)
    } else if b == 47 && n - pos > 1 && src[pos + 1] == 61 {
        (Some(Span(Token::SlashEq, RawSpan::new(pos, pos + 2))), None, pos + 2)
    } else if b == 124 && n - pos > 1 && src[pos + 1] == 61 {
        (Some(Span(Token::PipeEq, RawSpan::new(pos, pos + 2))), None, pos + 2)
    } else if b == 60 && n - pos > 1 && src[pos + 1] == 60 {
        (Some(Span(Token::Shl, RawSpan::new(pos, pos + 2))), None, pos + 2)
    } else if b == 62 && n - pos > 1 && src[pos + 1] == 62 {
        (Some(Span(Token::Shr, RawSpan::new(pos, pos + 2))), None, pos + 2)
    } else if b == 43 {
        (Some(Span(Token::Plus, RawSpan::new(pos, pos + 1))), None, pos + 1)
    } else if b == 45 {
        (Some(Span(Token::Minus, RawSpan::new(pos, pos + 1))), None, pos + 1)
    } else if b == 42 {
        (Some(Span(Token::Star, RawSpan::new(pos, pos + 1))), None, pos + 1)
    } else if b == 47 {
        (Some(Span(Token::Slash, RawSpan::new(pos, pos + 1))), None, pos + 1)
    } else if b == 61 {
        (Some(Span(Token::Eq, RawSpan::new(pos, pos + 1))), None, pos + 1)
    } else if b == 33 {
        (Some(Span(Token::Bang, RawSpan::new(pos, pos + 1))), None, pos + 1)
    } else if b == 62 {
        (Some(Span(Token::Gt, RawSpan::new(pos, pos + 1))), None, pos + 1)
    } else if b == 60 {
        (Some(Span(Token::Lt, RawSpan::new(pos, pos + 1))), None, pos + 1)
    } else if b == 126 {
        (Some(Span(Token::Tilde, RawSpan::new(pos, pos + 1))), None, pos + 1)
    } else if b == 124 {
        (Some(Span(Token::Pipe, RawSpan::new(pos, pos + 1))), None, pos + 1)
    } else if b == 38 {
        (Some(Span(Token::And, RawSpan::new(pos, pos + 1))), None, pos + 1)
    } else if b == 94 {
        (Some(Span(Token::Caret, RawSpan::new(pos, pos + 1))), None, pos + 1)
    } else if b == 63 {
        (Some(Span(Token::Question, RawSpan::new(pos, pos + 1))), None, pos + 1)
    } else if b == 37 {
        (Some(Span(Token::Percent, RawSpan::new(pos, pos + 1))), None, pos + 1)
    } else if b == 123 {
        (Some(Span(Token::LeftBrace, RawSpan::new(pos, pos + 1))), None, pos + 1)
    } else if b == 125 {
        (Some(Span(Token::RightBrace, RawSpan::new(pos, pos + 1))), None, pos + 1)
    } else if b == 91 {
        (Some(Span(Token::LeftBracket, RawSpan::new(pos, pos + 1))), None, pos + 1)
    } else if b == 93 {
        (Some(Span(Token::RightBracket, RawSpan::new(pos, pos + 1))), None, pos + 1)
    } else if b == 40 {
        (Some(Span(Token::LeftParen, RawSpan::new(pos, pos + 1))), None, pos + 1)
    } else if b == 41 {
        (Some(Span(Token::RightParen, RawSpan::new(pos, pos + 1))), None, pos + 1)
    } else if b == 44 {
        (Some(Span(Token::Comma, RawSpan::new(pos, pos + 1))), None, pos + 1)
    } else if b == 59 {
        (Some(Span(Token::Semi, RawSpan::new(pos, pos + 1))), None, pos + 1)
    } else {
        let e = scan_cont(src, pos + 1);
        let msg = VeaErr::UnrecognizedCharacter.message();
        (
            Some(Span(Token::Error(VeaErr::UnrecognizedCharacter), RawSpan::new(pos, e))),
            Some(Diag::new(RawSpan::new(pos, e), msg)),
            e,
        )
    }
}

/// Consume the full source and produce the ordered token sequence, the symbol
/// table, and the diagnostics of the pass, exactly as [`spec_lex`] describes.
pub fn lexer(src: &[u8]) -> (r: (LexOut, Vec<Diag>))
    ensures
        r.0.toks@ == spec_lex(src@).toks,
        syms_view(r.0.syms@) == spec_lex(src@).syms,
        r.1.deep_view() == spec_lex(src@).diags,
{
    let mut toks: Vec<Span<Token>> = Vec::new();
    let mut syms: Vec<Vec<u8>> = Vec::new();
    let mut diags: Vec<Diag> = Vec::new();
    let mut pos: usize = 0;
    assert(syms_view(syms@) =~= Seq::<Seq<u8>>::empty());
    while pos < src.len()
        invariant
            pos <= src@.len(),
            ({
                let rest = spec_lex_from(src@, pos as int, syms_view(syms@));
                &&& spec_lex(src@).toks == toks@ + rest.toks
                &&& spec_lex(src@).syms == rest.syms
                &&& spec_lex(src@).diags == diags.deep_view() + rest.diags
            }),
        decreases src@.len() - pos,
    {
        let ghost pre_syms = syms_view(syms@);
        let ghost rest_pre = spec_lex_from(src@, pos as int, pre_syms);
        let (tok, diag, next) = lex_step(src, pos, &mut syms);
        let ghost st = spec_lex_step(src@, pos as int, pre_syms);
        let ghost rest_post = spec_lex_from(src@, st.next, st.syms);
        match tok {
            Some(t) => {
                toks.push(t);
                assert(toks@ + rest_post.toks =~= toks@.drop_last() + (seq![t] + rest_post.toks));
            },
            None => {},
        }
        match diag {
            Some(d) => {
                diags.push(d);
                assert(diags.deep_view() =~= diags.deep_view().drop_last().push(d@));
                assert(diags.deep_view() + rest_post.diags =~= diags.deep_view().drop_last() + (
                seq![d@] + rest_post.diags));
            },
            None => {},
        }
        pos = next;
    }
    assert(spec_lex_from(src@, pos as int, syms_view(syms@)).toks =~= Seq::empty());
    assert(toks@ =~= toks@ + Seq::<Span<Token>>::empty());
    assert(diags.deep_view() =~= diags.deep_view() + Seq::<DiagV>::empty());
    (LexOut { toks, syms }, diags)
}

} // verus!
