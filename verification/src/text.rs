//! Decimal rendering of integer values, used by token display and by the
//! interpreter's `print` output.

use vstd::prelude::*;

verus! {

/// The decimal digits of `n`, most significant first.
pub open spec fn spec_u64_digits(n: nat) -> Seq<u8>
    decreases n,
{
    if n < 10 {
        seq![(48 + n) as u8]
    } else {
        spec_u64_digits(n / 10).push((48 + n % 10) as u8)
    }
}

/// The decimal text of a (possibly negative) integer.
pub open spec fn spec_i64_text(n: int) -> Seq<u8> {
    if n < 0 {
        seq![45u8] + spec_u64_digits((-n) as nat)
    } else {
        spec_u64_digits(n as nat)
    }
}

/// The decimal digits of `n`, most significant first.
pub fn u64_digits(n: u64) -> (r: Vec<u8>)
    ensures
        r@ == spec_u64_digits(n as nat),
    decreases n,
{
    if n < 10 {
        let mut r: Vec<u8> = Vec::new();
        r.push(48 + (n as u8));
        assert(r@ =~= spec_u64_digits(n as nat));
        r
    } else {
        let mut r = u64_digits(n / 10);
        r.push(48 + ((n % 10) as u8));
        r
    }
}

/// The decimal text of a signed integer.
pub fn i64_text(n: i64) -> (r: Vec<u8>)
    ensures
        r@ == spec_i64_text(n as int),
{
    if n >= 0 {
        u64_digits(n as u64)
    } else {
        let m: u64 = if n == i64::MIN {
            9223372036854775808u64
        } else {
            (-n) as u64
        };
        let mut r: Vec<u8> = Vec::new();
        r.push(45u8);
        let ds = u64_digits(m);
        crate::common::push_bytes(&mut r, ds.as_slice());
        assert(r@ =~= seq![45u8] + spec_u64_digits(m as nat));
        r
    }
}

} // verus!
