//! A mathematical set kept as a vector of pairwise-distinct elements, with
//! the classic algebra: union, difference, intersection, product, subset
//! tests.
//!
//! The element type needs a well-behaved equality for the contracts to bite:
//! every clause below is stated under `T::obeys_eq_spec()`, which holds for
//! the integer and tuple element types the set is used with.

use vstd::prelude::*;

verus! {

use vstd::std_specs::cmp::PartialEqSpec;

/// Whether `x` occurs in `s` under the element equality.
pub open spec fn spec_mem<T: PartialEq>(s: Seq<T>, x: T) -> bool {
    exists|i: int| 0 <= i < s.len() && #[trigger] s[i].eq_spec(&x)
}

/// `s` with `x` inserted: unchanged when already present, appended when new.
pub open spec fn spec_insert<T: PartialEq>(s: Seq<T>, x: T) -> Seq<T> {
    if spec_mem(s, x) {
        s
    } else {
        s.push(x)
    }
}

/// `s` with every element of `t[i..]` inserted in order.
pub open spec fn spec_insert_all<T: PartialEq>(s: Seq<T>, t: Seq<T>, i: int) -> Seq<T>
    decreases t.len() - i,
{
    if i < 0 || i >= t.len() {
        s
    } else {
        spec_insert_all(spec_insert(s, t[i]), t, i + 1)
    }
}

/// `s` with every element of `t[i..]` that satisfies membership in `u`
/// equal to `keep` inserted in order.
pub open spec fn spec_sift<T: PartialEq>(s: Seq<T>, t: Seq<T>, u: Seq<T>, keep: bool, i: int) -> Seq<
    T,
>
    decreases t.len() - i,
{
    if i < 0 || i >= t.len() {
        s
    } else if spec_mem(u, t[i]) == keep {
        spec_sift(spec_insert(s, t[i]), t, u, keep, i + 1)
    } else {
        spec_sift(s, t, u, keep, i + 1)
    }
}

/// `s` with the pairs of `x` and each element of `b[j..]` inserted.
pub open spec fn spec_prod_row<T: PartialEq>(s: Seq<(T, T)>, x: T, b: Seq<T>, j: int) -> Seq<
    (T, T),
>
    decreases b.len() - j,
{
    if j < 0 || j >= b.len() {
        s
    } else {
        spec_prod_row(spec_insert(s, (x, b[j])), x, b, j + 1)
    }
}

/// `s` with all pairs of `a[i..]` and `b` inserted in order.
pub open spec fn spec_prod<T: PartialEq>(s: Seq<(T, T)>, a: Seq<T>, b: Seq<T>, i: int) -> Seq<
    (T, T),
>
    decreases a.len() - i,
{
    if i < 0 || i >= a.len() {
        s
    } else {
        spec_prod(spec_prod_row(s, a[i], b, 0), a, b, i + 1)
    }
}

/// A set of copyable values, kept as the vector of its elements in insertion
/// order, pairwise distinct under the element equality.
#[derive(Clone, Debug)]
pub struct VecSet<T: Copy + PartialEq>(pub Vec<T>);

impl<T: Copy + PartialEq> VecSet<T> {
    /// The empty set.
    pub fn new() -> (r: VecSet<T>)
        ensures
            r.0@ =~= Seq::<T>::empty(),
    {
        VecSet(Vec::new())
    }

    /// The elements, in insertion order.
    pub fn vec(&self) -> (r: &Vec<T>)
        ensures
            r@ == self.0@,
    {
        &self.0
    }

    /// Whether `value` is an element.
    pub fn has(&self, value: &T) -> (r: bool)
        ensures
            T::obeys_eq_spec() ==> r == spec_mem(self.0@, *value),
    {
        let mut i: usize = 0;
        while i < self.0.len()
            invariant
                i <= self.0@.len(),
                T::obeys_eq_spec() ==> forall|j: int|
                    0 <= j < i ==> !(#[trigger] self.0@[j].eq_spec(value)),
            decreases self.0@.len() - i,
        {
            if self.0[i] == *value {
                return true;
            }
            i = i + 1;
        }
        false
    }

    /// Insert `value`: a duplicate of an existing element changes nothing.
    pub fn push(&mut self, value: T)
        ensures
            T::obeys_eq_spec() ==> final(self).0@ == spec_insert(old(self).0@, value),
    {
        if !self.has(&value) {
            self.0.push(value);
        }
    }

    /// Remove the element equal to `value`, if one is present; the last
    /// element takes its slot.
    pub fn remove(&mut self, value: T)
        ensures
            T::obeys_eq_spec() ==> final(self).0@ == ({
                let s = old(self).0@;
                match first_mem_idx(s, value, 0) {
                    Option::Some(i) => s.update(i, s.last()).drop_last(),
                    Option::None => s,
                }
            }),
    {
        let mut i: usize = 0;
        while i < self.0.len()
            invariant
                i <= self.0@.len(),
                self.0@ == old(self).0@,
                T::obeys_eq_spec() ==> first_mem_idx(self.0@, value, 0) == first_mem_idx(
                    self.0@,
                    value,
                    i as int,
                ),
            decreases self.0@.len() - i,
        {
            if self.0[i] == value {
                let _ = self.0.swap_remove(i);
                return;
            }
            i = i + 1;
        }
    }

    /// The union: the elements of `self`, then the new elements of `u`.
    pub fn union(&self, u: VecSet<T>) -> (r: VecSet<T>)
        ensures
            T::obeys_eq_spec() ==> r.0@ == spec_insert_all(
                spec_insert_all(Seq::empty(), self.0@, 0),
                u.0@,
                0,
            ),
    {
        let mut out = VecSet::new();
        let mut i: usize = 0;
        while i < self.0.len()
            invariant
                i <= self.0@.len(),
                T::obeys_eq_spec() ==> spec_insert_all(Seq::empty(), self.0@, 0)
                    == spec_insert_all(out.0@, self.0@, i as int),
            decreases self.0@.len() - i,
        {
            out.push(self.0[i]);
            i = i + 1;
        }
        let mut j: usize = 0;
        while j < u.0.len()
            invariant
                j <= u.0@.len(),
                T::obeys_eq_spec() ==> spec_insert_all(
                    spec_insert_all(Seq::empty(), self.0@, 0),
                    u.0@,
                    0,
                ) == spec_insert_all(out.0@, u.0@, j as int),
            decreases u.0@.len() - j,
        {
            out.push(u.0[j]);
            j = j + 1;
        }
        out
    }

    /// The elements of `self` that are not in `u`.
    pub fn set_difference(&self, u: VecSet<T>) -> (r: VecSet<T>)
        ensures
            T::obeys_eq_spec() ==> r.0@ == spec_sift(Seq::empty(), self.0@, u.0@, false, 0),
    {
        let mut out = VecSet::new();
        let mut i: usize = 0;
        while i < self.0.len()
            invariant
                i <= self.0@.len(),
                T::obeys_eq_spec() ==> spec_sift(Seq::empty(), self.0@, u.0@, false, 0)
                    == spec_sift(out.0@, self.0@, u.0@, false, i as int),
            decreases self.0@.len() - i,
        {
            if !u.has(&self.0[i]) {
                out.push(self.0[i]);
            }
            i = i + 1;
        }
        out
    }

    /// The elements of `self` that are also in `u`.
    pub fn intersection(&self, u: VecSet<T>) -> (r: VecSet<T>)
        ensures
            T::obeys_eq_spec() ==> r.0@ == spec_sift(Seq::empty(), self.0@, u.0@, true, 0),
    {
        let mut out = VecSet::new();
        let mut i: usize = 0;
        while i < self.0.len()
            invariant
                i <= self.0@.len(),
                T::obeys_eq_spec() ==> spec_sift(Seq::empty(), self.0@, u.0@, true, 0)
                    == spec_sift(out.0@, self.0@, u.0@, true, i as int),
            decreases self.0@.len() - i,
        {
            if u.has(&self.0[i]) {
                out.push(self.0[i]);
            }
            i = i + 1;
        }
        out
    }

    /// The elements in exactly one of the two sets.
    pub fn symmetric_difference(&self, u: VecSet<T>) -> (r: VecSet<T>)
        ensures
            T::obeys_eq_spec() ==> r.0@ == spec_insert_all(
                spec_insert_all(
                    Seq::empty(),
                    spec_sift(Seq::empty(), self.0@, u.0@, false, 0),
                    0,
                ),
                spec_sift(Seq::empty(), u.0@, self.0@, false, 0),
                0,
            ),
    {
        let a = self.set_difference(VecSet(copy_elems(&u.0)));
        let b = u.set_difference(VecSet(copy_elems(&self.0)));
        a.union(b)
    }

    /// The cartesian product, pairs in row-major insertion order.
    pub fn cartesian_product(&self, u: VecSet<T>) -> (r: VecSet<(T, T)>)
        ensures
            T::obeys_eq_spec() ==> r.0@ == spec_prod(Seq::empty(), self.0@, u.0@, 0),
    {
        let mut out: VecSet<(T, T)> = VecSet::new();
        let mut i: usize = 0;
        while i < self.0.len()
            invariant
                i <= self.0@.len(),
                T::obeys_eq_spec() ==> spec_prod(Seq::empty(), self.0@, u.0@, 0) == spec_prod(
                    out.0@,
                    self.0@,
                    u.0@,
                    i as int,
                ),
            decreases self.0@.len() - i,
        {
            let mut j: usize = 0;
            while j < u.0.len()
                invariant
                    i < self.0@.len(),
                    j <= u.0@.len(),
                    T::obeys_eq_spec() ==> spec_prod(Seq::empty(), self.0@, u.0@, 0)
                        == spec_prod(
                        spec_prod_row(out.0@, self.0@[i as int], u.0@, j as int),
                        self.0@,
                        u.0@,
                        i + 1,
                    ),
                decreases u.0@.len() - j,
            {
                out.push((self.0[i], u.0[j]));
                j = j + 1;
            }
            i = i + 1;
        }
        out
    }

    /// Whether every element of `u` is an element of `self`.
    pub fn is_superset(&self, u: VecSet<T>) -> (r: bool)
        ensures
            T::obeys_eq_spec() ==> r == (forall|i: int|
                0 <= i < u.0@.len() ==> spec_mem(self.0@, #[trigger] u.0@[i])),
    {
        let mut i: usize = 0;
        while i < u.0.len()
            invariant
                i <= u.0@.len(),
                T::obeys_eq_spec() ==> forall|j: int|
                    0 <= j < i ==> spec_mem(self.0@, #[trigger] u.0@[j]),
            decreases u.0@.len() - i,
        {
            if !self.has(&u.0[i]) {
                return false;
            }
            i = i + 1;
        }
        true
    }

    /// Whether every element of `self` is an element of `u`.
    pub fn is_subset(&self, u: VecSet<T>) -> (r: bool)
        ensures
            T::obeys_eq_spec() ==> r == (forall|i: int|
                0 <= i < self.0@.len() ==> spec_mem(u.0@, #[trigger] self.0@[i])),
    {
        let mut i: usize = 0;
        while i < self.0.len()
            invariant
                i <= self.0@.len(),
                T::obeys_eq_spec() ==> forall|j: int|
                    0 <= j < i ==> spec_mem(u.0@, #[trigger] self.0@[j]),
            decreases self.0@.len() - i,
        {
            if !u.has(&self.0[i]) {
                return false;
            }
            i = i + 1;
        }
        true
    }

    /// The number of elements.
    pub fn size(&self) -> (r: usize)
        ensures
            r == self.0@.len(),
    {
        self.0.len()
    }

    /// Whether the set is empty.
    pub fn is_null(&self) -> (r: bool)
        ensures
            r == (self.0@.len() == 0),
    {
        self.0.len() == 0
    }

    /// The elementwise image of the set under `f`, duplicates kept as the
    /// vector of results.
    pub fn map<U: Copy + PartialEq, F: Fn(&T) -> U>(&self, f: F) -> (r: VecSet<U>)
        requires
            forall|i: int| 0 <= i < self.0@.len() ==> call_requires(f, (&self.0@[i],)),
        ensures
            r.0@.len() == self.0@.len(),
            forall|i: int|
                0 <= i < self.0@.len() ==> call_ensures(f, (&self.0@[i],), #[trigger] r.0@[i]),
    {
        let mut out: Vec<U> = Vec::new();
        let mut i: usize = 0;
        while i < self.0.len()
            invariant
                i <= self.0@.len(),
                out@.len() == i,
                forall|i0: int| 0 <= i0 < self.0@.len() ==> call_requires(f, (&self.0@[i0],)),
                forall|j: int|
                    0 <= j < i ==> call_ensures(f, (&self.0@[j],), #[trigger] out@[j]),
            decreases self.0@.len() - i,
        {
            let y = f(&self.0[i]);
            out.push(y);
            i = i + 1;
        }
        VecSet(out)
    }
}

/// Index of the first element of `s[i..]` equal to `x`, if any.
pub open spec fn first_mem_idx<T: PartialEq>(s: Seq<T>, x: T, i: int) -> Option<int>
    decreases s.len() - i,
{
    if i < 0 || i >= s.len() {
        Option::None
    } else if s[i].eq_spec(&x) {
        Option::Some(i)
    } else {
        first_mem_idx(s, x, i + 1)
    }
}

/// A fresh vector with the same elements.
fn copy_elems<T: Copy + PartialEq>(v: &Vec<T>) -> (r: Vec<T>)
    ensures
        r@ == v@,
{
    let mut r: Vec<T> = Vec::new();
    let mut i: usize = 0;
    while i < v.len()
        invariant
            i <= v@.len(),
            r@ == v@.subrange(0, i as int),
        decreases v@.len() - i,
    {
        r.push(v[i]);
        assert(r@ =~= v@.subrange(0, i + 1 as int));
        i = i + 1;
    }
    assert(r@ =~= v@);
    r
}

impl<T: Copy + PartialEq> PartialEq for VecSet<T> {
    /// Containment of `self` in `other`: every element of `self` is an
    /// element of `other`. This one-sided test is what the set algebra here
    /// calls equality.
    fn eq(&self, other: &Self) -> (r: bool) {
        let mut i: usize = 0;
        while i < self.0.len()
            invariant
                i <= self.0@.len(),
                T::obeys_eq_spec() ==> forall|j: int|
                    0 <= j < i ==> spec_mem(other.0@, #[trigger] self.0@[j]),
            decreases self.0@.len() - i,
        {
            if !other.has(&self.0[i]) {
                return false;
            }
            i = i + 1;
        }
        true
    }
}

impl<T: Copy + PartialEq> vstd::std_specs::cmp::PartialEqSpecImpl for VecSet<T> {
    open spec fn obeys_eq_spec() -> bool {
        T::obeys_eq_spec()
    }

    open spec fn eq_spec(&self, other: &Self) -> bool {
        forall|i: int| 0 <= i < self.0@.len() ==> spec_mem(other.0@, #[trigger] self.0@[i])
    }
}

impl<T: Copy + PartialEq> Eq for VecSet<T> {

}

/// The complement view of a set: membership is negated.
pub struct Exclude<T: Copy + PartialEq>(pub VecSet<T>);

impl<T: Copy + PartialEq> Exclude<T> {
    /// Wrap a set as its own complement.
    pub fn new(s: VecSet<T>) -> (r: Exclude<T>)
        ensures
            r.0.0@ == s.0@,
    {
        Exclude(s)
    }

    /// Whether `value` lies outside the wrapped set.
    pub fn has(&self, value: &T) -> (r: bool)
        ensures
            T::obeys_eq_spec() ==> r == !spec_mem(self.0.0@, *value),
    {
        !self.0.has(value)
    }
}

} // verus!
