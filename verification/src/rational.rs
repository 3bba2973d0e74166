//! Rational numbers kept in lowest terms by construction.

use vstd::prelude::*;

verus! {

/// The magnitude of an integer.
pub open spec fn iabs(x: int) -> nat {
    if x < 0 {
        (-x) as nat
    } else {
        x as nat
    }
}

/// The greatest common divisor, by Euclid's algorithm.
pub open spec fn spec_gcd(a: nat, b: nat) -> nat
    decreases b,
{
    if b == 0 {
        a
    } else {
        spec_gcd(b, a % b)
    }
}

/// The divisor is positive whenever either argument is, and divides both.
pub proof fn lemma_gcd_divides(a: nat, b: nat)
    ensures
        a > 0 || b > 0 ==> spec_gcd(a, b) > 0,
        spec_gcd(a, b) > 0 ==> a as int % (spec_gcd(a, b) as int) == 0,
        spec_gcd(a, b) > 0 ==> b as int % (spec_gcd(a, b) as int) == 0,
    decreases b,
{
    let g = spec_gcd(a, b) as int;
    if b == 0 {
        if a > 0 {
            vstd::arithmetic::div_mod::lemma_mod_self_0(a as int);
            assert(0int % (a as int) == 0) by {
                vstd::arithmetic::div_mod::lemma_small_mod(0, a);
            }
        }
    } else {
        lemma_gcd_divides(b, a % b);
        if g > 0 {
            vstd::arithmetic::div_mod::lemma_fundamental_div_mod(a as int, b as int);
            assert(a as int == (b as int) * (a as int / b as int) + (a as int % b as int));
            let k = a as int / b as int;
            assert(((b as int) * k) % g == 0) by {
                vstd::arithmetic::div_mod::lemma_mul_mod_noop_left(b as int, k, g);
                assert((b as int) % g == 0);
                assert((0int * k) % g == ((b as int) % g * k) % g);
                assert(0int * k == 0);
                vstd::arithmetic::div_mod::lemma_small_mod(0, g as nat);
            }
            assert(a as int % g == 0) by {
                vstd::arithmetic::div_mod::lemma_add_mod_noop(
                    (b as int) * k,
                    a as int % b as int,
                    g,
                );
                vstd::arithmetic::div_mod::lemma_small_mod(0, g as nat);
            }
        }
    }
}

/// A positive divisor of a positive value does not exceed it.
pub proof fn lemma_divisor_le(x: nat, d: nat)
    requires
        x > 0,
        d > 0,
        x as int % (d as int) == 0,
    ensures
        d <= x,
{
    if d > x {
        vstd::arithmetic::div_mod::lemma_small_mod(x, d);
    }
}

/// Euclid's algorithm on machine words; mirrors [`spec_gcd`].
fn gcd_u32(a: u32, b: u32) -> (r: u32)
    ensures
        r as nat == spec_gcd(a as nat, b as nat),
    decreases b,
{
    if b == 0 {
        a
    } else {
        gcd_u32(b, a % b)
    }
}

/// A ratio of two integers, scaled down by the greatest common divisor of
/// their magnitudes when built through [`Rational::new`].
#[derive(Clone, Copy, PartialEq, Eq, PartialOrd, Ord, Debug, Structural)]
pub struct Rational {
    pub n: i32,
    pub d: i32,
}

impl Rational {
    /// Build the ratio `n / d` in lowest terms: both magnitudes are divided
    /// by their greatest common divisor, signs kept.
    pub fn new(n: i32, d: i32) -> (r: Rational)
        requires
            !(n == 0 && d == 0),
            n != i32::MIN,
            d != i32::MIN,
        ensures
            ({
                let g = spec_gcd(iabs(n as int), iabs(d as int));
                &&& iabs(r.n as int) == iabs(n as int) / g
                &&& iabs(r.d as int) == iabs(d as int) / g
                &&& (r.n < 0) == (n < 0)
                &&& (r.d < 0) == (d < 0)
            }),
    {
        Rational { n, d }.reduce()
    }

    /// Scale both magnitudes down by their greatest common divisor.
    fn reduce(&self) -> (r: Rational)
        requires
            !(self.n == 0 && self.d == 0),
            self.n != i32::MIN,
            self.d != i32::MIN,
        ensures
            ({
                let g = spec_gcd(iabs(self.n as int), iabs(self.d as int));
                &&& iabs(r.n as int) == iabs(self.n as int) / g
                &&& iabs(r.d as int) == iabs(self.d as int) / g
                &&& (r.n < 0) == (self.n < 0)
                &&& (r.d < 0) == (self.d < 0)
            }),
    {
        let an: u32 = if self.n < 0 {
            (-self.n) as u32
        } else {
            self.n as u32
        };
        let ad: u32 = if self.d < 0 {
            (-self.d) as u32
        } else {
            self.d as u32
        };
        let g = gcd_u32(an, ad);
        proof {
            lemma_gcd_divides(an as nat, ad as nat);
            if an > 0 {
                lemma_divisor_le(an as nat, g as nat);
            }
            if ad > 0 {
                lemma_divisor_le(ad as nat, g as nat);
            }
        }
        let qn = an / g;
        let qd = ad / g;
        proof {
            assert(qn <= an && qd <= ad) by (nonlinear_arith)
                requires
                    g >= 1,
                    qn == an as int / g as int,
                    qd == ad as int / g as int,
                    an >= 0,
                    ad >= 0,
            ;
        }
        let rn: i32 = if self.n < 0 {
            -(qn as i32)
        } else {
            qn as i32
        };
        let rd: i32 = if self.d < 0 {
            -(qd as i32)
        } else {
            qd as i32
        };
        proof {
            if self.n < 0 {
                assert(an as nat == iabs(self.n as int));
                assert(qn >= 1) by (nonlinear_arith)
                    requires
                        g >= 1,
                        g as nat == spec_gcd(an as nat, ad as nat),
                        an > 0,
                        qn == an as int / g as int,
                        g <= an,
                ;
            }
            if self.d < 0 {
                assert(qd >= 1) by (nonlinear_arith)
                    requires
                        g >= 1,
                        ad > 0,
                        qd == ad as int / g as int,
                        g <= ad,
                ;
            }
        }
        Rational { n: rn, d: rd }
    }
}

} // verus!
