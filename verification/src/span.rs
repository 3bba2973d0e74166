//! Byte-offset source ranges and the span-tagging wrapper shared by tokens,
//! syntax-tree nodes and diagnostics.

use vstd::prelude::*;

verus! {

/// A half-open byte-offset range `start..end` into the original source text.
#[derive(Clone, Copy, Debug, PartialEq, Eq, Structural)]
pub struct RawSpan {
    pub start: usize,
    pub end: usize,
}

impl RawSpan {
    /// Build a range from its two byte offsets.
    pub fn new(start: usize, end: usize) -> (r: RawSpan)
        ensures
            r.start == start,
            r.end == end,
    {
        RawSpan { start, end }
    }
}

/// A value tagged with the byte-offset range of the source text it came from.
///
/// Spans are the sole vehicle for diagnostics: every token and every
/// syntax-tree node carries one.
#[derive(Clone, Copy, Debug)]
pub struct Span<T>(pub T, pub RawSpan);

/// One diagnostic: a message anchored to a byte-offset range of the source.
///
/// Every error the engine raises is delivered this way; an external renderer
/// (out of the engine's scope) turns the pair into a decorated report.
#[derive(Clone, Debug)]
pub struct Diag {
    pub span: RawSpan,
    pub msg: Vec<u8>,
}

/// The mathematical image of a [`Diag`].
pub struct DiagV {
    pub span: RawSpan,
    pub msg: Seq<u8>,
}

impl View for Diag {
    type V = DiagV;

    open spec fn view(&self) -> DiagV {
        DiagV { span: self.span, msg: self.msg@ }
    }
}

impl DeepView for Diag {
    type V = DiagV;

    open spec fn deep_view(&self) -> DiagV {
        self.view()
    }
}

impl Diag {
    /// Build a diagnostic from its span and message.
    pub fn new(span: RawSpan, msg: Vec<u8>) -> (r: Diag)
        ensures
            r@ == (DiagV { span, msg: msg@ }),
    {
        Diag { span, msg }
    }
}

} // verus!
