//! Fixed-shape integer matrices with elementary row operations.

use vstd::prelude::*;

verus! {

/// An `N` by `M` matrix of integers, stored row-major.
#[derive(Clone, Debug)]
pub struct Matrix<const N: usize, const M: usize> {
    pub rows: Vec<Vec<i64>>,
}

impl<const N: usize, const M: usize> Matrix<N, M> {
    /// Shape well-formedness: `N` rows of `M` columns each.
    pub open spec fn wf(&self) -> bool {
        &&& self.rows@.len() == N
        &&& forall|i: int| 0 <= i < N ==> (#[trigger] self.rows@[i])@.len() == M
    }

    /// The entry at row `i`, column `j`.
    pub open spec fn at(&self, i: int, j: int) -> i64 {
        self.rows@[i]@[j]
    }

    /// Build a matrix from an array of rows.
    pub fn new(values: [[i64; M]; N]) -> (r: Matrix<N, M>)
        ensures
            r.wf(),
            forall|i: int, j: int|
                0 <= i < N && 0 <= j < M ==> r.at(i, j) == values@[i]@[j],
    {
        let mut rows: Vec<Vec<i64>> = Vec::new();
        let mut i: usize = 0;
        while i < N
            invariant
                i <= N,
                rows@.len() == i,
                forall|a: int| 0 <= a < i ==> (#[trigger] rows@[a])@.len() == M,
                forall|a: int, b: int|
                    0 <= a < i && 0 <= b < M ==> rows@[a]@[b] == values@[a]@[b],
            decreases N - i,
        {
            let mut row: Vec<i64> = Vec::new();
            let mut j: usize = 0;
            while j < M
                invariant
                    i < N,
                    j <= M,
                    row@.len() == j,
                    forall|b: int| 0 <= b < j ==> row@[b] == values@[i as int]@[b],
                decreases M - j,
            {
                row.push(values[i][j]);
                j = j + 1;
            }
            rows.push(row);
            i = i + 1;
        }
        Matrix { rows }
    }

    /// The number of entries.
    pub fn size(&self) -> (r: usize)
        requires
            N * M <= usize::MAX,
        ensures
            r == N * M,
    {
        proof {
            assert(N * M <= usize::MAX);
        }
        N * M
    }

    /// The number of rows.
    pub fn rows(&self) -> (r: usize)
        ensures
            r == N,
    {
        N
    }

    /// The number of columns.
    pub fn columns(&self) -> (r: usize)
        ensures
            r == M,
    {
        M
    }

    /// The transpose.
    pub fn transpose(&self) -> (r: Matrix<M, N>)
        requires
            self.wf(),
        ensures
            r.wf(),
            forall|i: int, j: int| 0 <= i < M && 0 <= j < N ==> r.at(i, j) == self.at(j, i),
    {
        let mut rows: Vec<Vec<i64>> = Vec::new();
        let mut i: usize = 0;
        while i < M
            invariant
                self.wf(),
                i <= M,
                rows@.len() == i,
                forall|a: int| 0 <= a < i ==> (#[trigger] rows@[a])@.len() == N,
                forall|a: int, b: int|
                    0 <= a < i && 0 <= b < N ==> rows@[a]@[b] == self.at(b, a),
            decreases M - i,
        {
            let mut row: Vec<i64> = Vec::new();
            let mut j: usize = 0;
            while j < N
                invariant
                    self.wf(),
                    i < M,
                    j <= N,
                    row@.len() == j,
                    forall|b: int| 0 <= b < j ==> row@[b] == self.at(b, i as int),
                decreases N - j,
            {
                row.push(self.rows[j][i]);
                j = j + 1;
            }
            rows.push(row);
            i = i + 1;
        }
        Matrix { rows }
    }

    /// Walk the product of `self` with `other`, accumulating with wrapping
    /// arithmetic; the product is computed for its side of exercising the
    /// shapes and then discarded.
    pub fn multiply(&self, other: &Matrix<M, N>)
        requires
            self.wf(),
            other.wf(),
    {
        let mut acc: i64 = 0;
        let mut r: usize = 0;
        while r < N
            invariant
                self.wf(),
                other.wf(),
            decreases N - r,
        {
            let mut c: usize = 0;
            while c < N
                invariant
                    self.wf(),
                    other.wf(),
                    r < N,
                decreases N - c,
            {
                let mut i: usize = 0;
                while i < M
                    invariant
                        self.wf(),
                        other.wf(),
                        r < N,
                        c < N,
                    decreases M - i,
                {
                    acc = acc.wrapping_add(self.rows[r][i].wrapping_mul(other.rows[i][c]));
                    i = i + 1;
                }
                c = c + 1;
            }
            r = r + 1;
        }
    }

    /// Exchange rows `i` and `j`.
    pub fn swap_row(&mut self, i: usize, j: usize)
        requires
            old(self).wf(),
            i < N,
            j < N,
        ensures
            final(self).wf(),
            final(self).rows@[i as int]@ == old(self).rows@[j as int]@,
            final(self).rows@[j as int]@ == old(self).rows@[i as int]@,
            forall|a: int|
                0 <= a < N && a != i && a != j ==> (#[trigger] final(self).rows@[a])@
                    == old(self).rows@[a]@,
    {
        let ri = copy_row(&self.rows[i]);
        let rj = copy_row(&self.rows[j]);
        self.rows[i] = rj;
        self.rows[j] = ri;
    }

    /// Scale row `i` by `by`, wrapping on overflow.
    pub fn row_mul(&mut self, i: usize, by: i64)
        requires
            old(self).wf(),
            i < N,
        ensures
            final(self).wf(),
            forall|b: int|
                0 <= b < M ==> final(self).at(i as int, b) == vstd::wrapping::i64_specs::wrapping_mul(
                    old(self).at(i as int, b),
                    by,
                ),
            forall|a: int|
                0 <= a < N && a != i ==> (#[trigger] final(self).rows@[a])@ == old(self).rows@[a]@,
    {
        let mut row = copy_row(&self.rows[i]);
        let mut j: usize = 0;
        while j < M
            invariant
                old(self).wf(),
                i < N,
                j <= M,
                row@.len() == M,
                forall|b: int|
                    0 <= b < j ==> row@[b] == vstd::wrapping::i64_specs::wrapping_mul(
                        old(self).at(i as int, b),
                        by,
                    ),
                forall|b: int| j <= b < M ==> row@[b] == old(self).at(i as int, b),
            decreases M - j,
        {
            let x = row[j];
            row[j] = x.wrapping_mul(by);
            j = j + 1;
        }
        self.rows[i] = row;
    }

    /// The `P` by `P` matrix with `one` on the diagonal and `zero` elsewhere.
    pub fn identity<const P: usize>(zero: i64, one: i64) -> (r: Matrix<P, P>)
        ensures
            r.wf(),
            forall|i: int, j: int|
                0 <= i < P && 0 <= j < P ==> r.at(i, j) == (if i == j {
                    one
                } else {
                    zero
                }),
    {
        let mut rows: Vec<Vec<i64>> = Vec::new();
        let mut i: usize = 0;
        while i < P
            invariant
                i <= P,
                rows@.len() == i,
                forall|a: int| 0 <= a < i ==> (#[trigger] rows@[a])@.len() == P,
                forall|a: int, b: int|
                    0 <= a < i && 0 <= b < P ==> rows@[a]@[b] == (if a == b {
                        one
                    } else {
                        zero
                    }),
            decreases P - i,
        {
            let mut row: Vec<i64> = Vec::new();
            let mut j: usize = 0;
            while j < P
                invariant
                    i < P,
                    j <= P,
                    row@.len() == j,
                    forall|b: int|
                        0 <= b < j ==> row@[b] == (if i == b {
                            one
                        } else {
                            zero
                        }),
                decreases P - j,
            {
                if j == i {
                    row.push(one);
                } else {
                    row.push(zero);
                }
                j = j + 1;
            }
            rows.push(row);
            i = i + 1;
        }
        Matrix { rows }
    }

    /// The elementwise image of the matrix under `f`.
    pub fn map<F: Fn(i64) -> i64>(&self, f: F) -> (r: Matrix<N, M>)
        requires
            self.wf(),
            forall|x: i64| call_requires(f, (x,)),
        ensures
            r.wf(),
            forall|i: int, j: int|
                0 <= i < N && 0 <= j < M ==> call_ensures(f, (self.at(i, j),), #[trigger] r.at(i, j)),
    {
        let mut rows: Vec<Vec<i64>> = Vec::new();
        let mut i: usize = 0;
        while i < N
            invariant
                self.wf(),
                forall|x: i64| call_requires(f, (x,)),
                i <= N,
                rows@.len() == i,
                forall|a: int| 0 <= a < i ==> (#[trigger] rows@[a])@.len() == M,
                forall|a: int, b: int|
                    0 <= a < i && 0 <= b < M ==> call_ensures(
                        f,
                        (self.at(a, b),),
                        #[trigger] rows@[a]@[b],
                    ),
            decreases N - i,
        {
            let mut row: Vec<i64> = Vec::new();
            let mut j: usize = 0;
            while j < M
                invariant
                    self.wf(),
                    forall|x: i64| call_requires(f, (x,)),
                    i < N,
                    j <= M,
                    row@.len() == j,
                    forall|b: int|
                        0 <= b < j ==> call_ensures(
                            f,
                            (self.at(i as int, b),),
                            #[trigger] row@[b],
                        ),
                decreases M - j,
            {
                row.push(f(self.rows[i][j]));
                j = j + 1;
            }
            rows.push(row);
            i = i + 1;
        }
        Matrix { rows }
    }


    /// The minor of the matrix: rows and columns with row `x` and column
    /// `y` removed, handed out as a plain row-major table.
    pub fn submatrix(&self, x: usize, y: usize) -> (r: Vec<Vec<i64>>)
        requires
            self.wf(),
            x < N,
            y < M,
        ensures
            r@.len() == N - 1,
            forall|i: int| 0 <= i < N - 1 ==> (#[trigger] r@[i])@.len() == M - 1,
            forall|i: int, j: int|
                0 <= i < N - 1 && 0 <= j < M - 1 ==> r@[i]@[j] == self.at(
                    i + (if i >= x { 1int } else { 0int }),
                    j + (if j >= y { 1int } else { 0int }),
                ),
    {
        let mut rows: Vec<Vec<i64>> = Vec::new();
        let mut i: usize = 0;
        while i < N - 1
            invariant
                self.wf(),
                x < N,
                y < M,
                i <= N - 1,
                rows@.len() == i,
                forall|a: int| 0 <= a < i ==> (#[trigger] rows@[a])@.len() == M - 1,
                forall|a: int, b: int|
                    0 <= a < i && 0 <= b < M - 1 ==> rows@[a]@[b] == self.at(
                        a + (if a >= x { 1int } else { 0int }),
                        b + (if b >= y { 1int } else { 0int }),
                    ),
            decreases N - 1 - i,
        {
            let si = if i >= x {
                i + 1
            } else {
                i
            };
            let mut row: Vec<i64> = Vec::new();
            let mut j: usize = 0;
            while j < M - 1
                invariant
                    self.wf(),
                    x < N,
                    y < M,
                    i < N - 1,
                    si == i + (if i >= x { 1int } else { 0int }),
                    si < N,
                    j <= M - 1,
                    row@.len() == j,
                    forall|b: int|
                        0 <= b < j ==> row@[b] == self.at(
                            si as int,
                            b + (if b >= y { 1int } else { 0int }),
                        ),
                decreases M - 1 - j,
            {
                let sj = if j >= y {
                    j + 1
                } else {
                    j
                };
                row.push(self.rows[si][sj]);
                j = j + 1;
            }
            rows.push(row);
            i = i + 1;
        }
        rows
    }

    /// The entries flattened row-major into one vector.
    pub fn to_n(&self) -> (r: Vec<i64>)
        requires
            self.wf(),
            N * M <= usize::MAX,
        ensures
            r@.len() == N * M,
            forall|i: int, j: int|
                0 <= i < N && 0 <= j < M ==> r@[i * M + j] == self.at(i, j),
    {
        let mut out: Vec<i64> = Vec::new();
        let mut i: usize = 0;
        while i < N
            invariant
                self.wf(),
                N * M <= usize::MAX,
                i <= N,
                out@.len() == i * M,
                forall|a: int, b: int|
                    0 <= a < i && 0 <= b < M ==> out@[a * M + b] == self.at(a, b),
            decreases N - i,
        {
            proof {
                assert((i + 1) * M <= N * M) by (nonlinear_arith)
                    requires
                        i < N,
                        M >= 0,
                ;
                assert(i * M + M == (i + 1) * M) by (nonlinear_arith);
            }
            let mut j: usize = 0;
            while j < M
                invariant
                    self.wf(),
                    i < N,
                    j <= M,
                    i * M + M <= N * M <= usize::MAX,
                    out@.len() == i * M + j,
                    forall|a: int, b: int|
                        0 <= a < i && 0 <= b < M ==> out@[a * M + b] == self.at(a, b),
                    forall|b: int| 0 <= b < j ==> out@[i as int * M + b] == self.at(i as int, b),
                decreases M - j,
            {
                proof {
                    assert(forall|a: int, b: int|
                        0 <= a < i && 0 <= b < M ==> #[trigger] (a * M + b) < i as int * M)
                        by (nonlinear_arith)
                        requires
                            M >= 0,
                    ;
                }
                out.push(self.rows[i][j]);
                j = j + 1;
            }
            proof {
                assert(forall|a: int, b: int|
                    0 <= a < i && 0 <= b < M ==> #[trigger] (a * M + b) < i as int * M)
                    by (nonlinear_arith)
                    requires
                        M >= 0,
                ;
                assert(forall|a: int, b: int|
                    0 <= a < i + 1 && 0 <= b < M ==> out@[a * M + b] == self.at(a, b));
            }
            i = i + 1;
        }
        proof {
            assert(i * M == N * M) by (nonlinear_arith)
                requires
                    i == N,
            ;
        }
        out
    }

    /// The entry at flat position `n`, read row-major with the row count as
    /// the stride.
    pub fn get_n(&self, n: usize) -> (r: i64)
        requires
            self.wf(),
            N > 0,
            n / N < N,
            n % N < M,
        ensures
            r == self.at((n / N) as int, (n % N) as int),
    {
        let d = n / N;
        let m = n % N;
        self.rows[d][m]
    }
}

/// A fresh row with the same entries.
fn copy_row(v: &Vec<i64>) -> (r: Vec<i64>)
    ensures
        r@ == v@,
{
    let mut r: Vec<i64> = Vec::new();
    let mut i: usize = 0;
    while i < v.len()
        invariant
            i <= v@.len(),
            r@ == v@.subrange(0, i as int),
        decreases v@.len() - i,
    {
        r.push(v[i]);
        assert(r@ =~= v@.subrange(0, i + 1 as int));
        i = i + 1;
    }
    assert(r@ =~= v@);
    r
}

} // verus!
