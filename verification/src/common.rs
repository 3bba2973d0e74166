//! Shared small pieces: the lexical error reasons embedded in error tokens,
//! and a few generic helper traits.

use vstd::prelude::*;

verus! {

use vstd::string::StringSliceAdditionalSpecFns;

/// The reason carried by an error token that the lexer embeds in its output
/// when it recovers from malformed input.
#[derive(Clone, Copy, PartialEq, Eq, PartialOrd, Ord, Debug, Hash, Structural)]
pub enum VeaErr {
    /// A numeric literal that does not fit the integer value type.
    IntegerOverflow,
    /// A backslash escape inside a string literal that is not recognized.
    InvalidStringEscape,
    /// A quotation mark other than the single quote that strings use.
    InvalidQuotationMark,
    /// A character that starts no token at all.
    UnrecognizedCharacter,
    /// A string literal whose closing quote is missing.
    UnterminatedString,
}

impl VeaErr {
    /// The spec-level text of the diagnostic message for this reason.
    pub open spec fn spec_message(self) -> Seq<u8> {
        match self {
            VeaErr::IntegerOverflow => "integer overflow".spec_bytes(),
            VeaErr::InvalidStringEscape => "invalid string escape".spec_bytes(),
            VeaErr::InvalidQuotationMark => "invalid quote mark".spec_bytes(),
            VeaErr::UnrecognizedCharacter => "unrecognized character".spec_bytes(),
            VeaErr::UnterminatedString => "unterminated string".spec_bytes(),
        }
    }

    /// The text of the diagnostic message for this reason.
    pub fn message(&self) -> (r: Vec<u8>)
        ensures
            r@ == self.spec_message(),
    {
        let s: &str = match self {
            VeaErr::IntegerOverflow => "integer overflow",
            VeaErr::InvalidStringEscape => "invalid string escape",
            VeaErr::InvalidQuotationMark => "invalid quote mark",
            VeaErr::UnrecognizedCharacter => "unrecognized character",
            VeaErr::UnterminatedString => "unterminated string",
        };
        slice_to_vec(s.as_bytes())
    }
}

/// Copy a byte slice into a fresh vector.
pub fn slice_to_vec(s: &[u8]) -> (r: Vec<u8>)
    ensures
        r@ == s@,
{
    let mut r: Vec<u8> = Vec::new();
    let mut i: usize = 0;
    while i < s.len()
        invariant
            i <= s@.len(),
            r@ == s@.subrange(0, i as int),
        decreases s@.len() - i,
    {
        r.push(s[i]);
        assert(r@ =~= s@.subrange(0, i + 1 as int));
        i = i + 1;
    }
    assert(r@ =~= s@);
    r
}

/// Test two byte slices for equality.
pub fn slice_eq(a: &[u8], b: &[u8]) -> (r: bool)
    ensures
        r == (a@ == b@),
{
    if a.len() != b.len() {
        assert(a@ != b@) by {
            assert(a@.len() != b@.len());
        }
        return false;
    }
    let mut i: usize = 0;
    while i < a.len()
        invariant
            a@.len() == b@.len(),
            i <= a@.len(),
            forall|j: int| 0 <= j < i ==> a@[j] == b@[j],
        decreases a@.len() - i,
    {
        if a[i] != b[i] {
            return false;
        }
        i = i + 1;
    }
    assert(a@ =~= b@);
    true
}

/// Append the contents of a byte slice to a vector.
pub fn push_bytes(out: &mut Vec<u8>, s: &[u8])
    ensures
        final(out)@ == old(out)@ + s@,
{
    let mut i: usize = 0;
    while i < s.len()
        invariant
            i <= s@.len(),
            out@ == old(out)@ + s@.subrange(0, i as int),
        decreases s@.len() - i,
    {
        out.push(s[i]);
        assert(out@ =~= old(out)@ + s@.subrange(0, i + 1 as int));
        i = i + 1;
    }
    assert(out@ =~= old(out)@ + s@);
}

/// Wrap a value in a [`Box`].
pub trait Rebox where Self: Sized {
    /// Move `self` to the heap.
    fn rebox(self) -> (r: Box<Self>)
        ensures
            *r == self,
    {
        Box::new(self)
    }
}

impl<T> Rebox for T {}

/// A value that can report a display name for itself.
pub trait Named {
    /// The display name of this value.
    fn name(&self) -> String;
}

impl Named for VeaErr {
    fn name(&self) -> String {
        let s: &str = match self {
            VeaErr::IntegerOverflow => "integer overflow",
            VeaErr::InvalidStringEscape => "invalid string escape",
            VeaErr::InvalidQuotationMark => "invalid quote mark",
            VeaErr::UnrecognizedCharacter => "unrecognized character",
            VeaErr::UnterminatedString => "unterminated string",
        };
        s.to_owned()
    }
}

} // verus!
