//! Small generic utilities: a bounded do-while runner, step traits, and a
//! width-tagged integer.

use vstd::prelude::*;

verus! {

/// Run `body` once, then keep running it while `condition` holds, up to
/// `fuel` further rounds; the bound keeps a never-changing condition from
/// spinning forever.
pub fn do_while<F: Fn()>(body: F, condition: &bool, fuel: u64)
    requires
        call_requires(body, ()),
{
    body();
    let mut i: u64 = 0;
    while i < fuel && *condition
        invariant
            call_requires(body, ()),
            i <= fuel,
        decreases fuel - i,
    {
        body();
        i = i + 1;
    }
}

/// A value with a unit step upward.
pub trait Increment where Self: Sized {
    /// Step up by one unit, in place.
    fn incr_pre(&mut self);

    /// Step up by one unit, handing back the value before the step.
    fn incr_post(&mut self) -> Self;
}

/// A value with a unit step downward.
pub trait Decrement where Self: Sized {
    /// Step down by one unit, in place.
    fn decr_pre(&mut self);

    /// Step down by one unit, handing back the value before the step.
    fn decr_post(&mut self) -> Self;
}

/// An integer tagged with its machine width and signedness.
#[derive(Clone, Copy, PartialEq, Eq, Debug, Structural)]
pub enum Integer {
    I8(i8),
    I16(i16),
    I32(i32),
    I64(i64),
    ISize(isize),
    U8(u8),
    U16(u16),
    U32(u32),
    U64(u64),
    USize(usize),
}

} // verus!
