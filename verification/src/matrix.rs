use vstd::prelude::*;

use crate::scalar::{Scalar, ScalarAdd, ScalarMul, ScalarSub, ScalarZero};
use crate::vector::TVector;

verus! {

/// An `M` by `N` matrix (`M` rows, `N` columns) of scalars of type `T`, stored
/// column-major: `data` holds `N` columns of `M` elements each, so the logical
/// element at row `r`, column `c` lives at `data[c][r]`. Both dimensions are
/// part of the type, so operand shapes are matched at compile time.
pub struct TMatrix<T, const M: usize, const N: usize> {
    pub data: Vec<Vec<T>>,
}

impl<T, const M: usize, const N: usize> TMatrix<T, M, N> {
    /// The storage has exactly the shape the type promises: `N` columns of `M`
    /// elements each.
    pub open spec fn wf(&self) -> bool {
        self.data@.len() == N && forall|c: int| 0 <= c < N ==> (#[trigger] self.data@[c])@.len()
            == M
    }

    /// The logical element at row `r`, column `c`, read from the column-major
    /// storage.
    pub open spec fn ent(&self, r: int, c: int) -> T {
        self.data@[c]@[r]
    }

    /// Logical row `r` as a sequence, in ascending column order.
    pub open spec fn row(&self, r: int) -> Seq<T> {
        Seq::new(N as nat, |c: int| self.ent(r, c))
    }

    /// Logical column `c` as a sequence, in ascending row order.
    pub open spec fn col(&self, c: int) -> Seq<T> {
        Seq::new(M as nat, |r: int| self.ent(r, c))
    }
}

/// The running left-to-right dot product of the first `k` index pairs of `a`
/// and `b`, starting from the additive identity: the fixed ascending-index
/// summation order of every multiplication in this library.
pub open spec fn dot_prefix<T: ScalarZero + ScalarAdd + ScalarMul>(a: Seq<T>, b: Seq<T>, k: int) -> T
    decreases k,
{
    if k <= 0 {
        T::sp_zero()
    } else {
        dot_prefix(a, b, k - 1).sp_add(a[k - 1].sp_mul(b[k - 1]))
    }
}

/// Every scalar operation in the first `k` steps of that dot product is
/// defined on the machine.
pub open spec fn dot_prefix_ok<T: ScalarZero + ScalarAdd + ScalarMul>(a: Seq<T>, b: Seq<T>, k: int) -> bool
    decreases k,
{
    k <= 0 || (dot_prefix_ok(a, b, k - 1) && a[k - 1].mul_ok(b[k - 1]) && dot_prefix(
        a,
        b,
        k - 1,
    ).add_ok(a[k - 1].sp_mul(b[k - 1])))
}

/// The dot product of `a` and `b` over all of `a`'s indices.
pub open spec fn dot<T: ScalarZero + ScalarAdd + ScalarMul>(a: Seq<T>, b: Seq<T>) -> T {
    dot_prefix(a, b, a.len() as int)
}

/// The whole dot product of `a` and `b` is defined on the machine.
pub open spec fn dot_ok<T: ScalarZero + ScalarAdd + ScalarMul>(a: Seq<T>, b: Seq<T>) -> bool {
    dot_prefix_ok(a, b, a.len() as int)
}

/// A defined dot product stays defined on every shorter prefix.
pub proof fn lemma_dot_prefix_ok_mono<T: ScalarZero + ScalarAdd + ScalarMul>(a: Seq<T>, b: Seq<T>, k: int, n: int)
    requires
        0 <= k <= n,
        dot_prefix_ok(a, b, n),
    ensures
        dot_prefix_ok(a, b, k),
    decreases n,
{
    if k < n {
        lemma_dot_prefix_ok_mono(a, b, k, n - 1);
    }
}

impl<T> TMatrix<T, 2, 2> {
    /// Builds the 2-by-2 matrix whose values are listed row by row; storage is
    /// transposed to column-major here, at the construction boundary.
    pub fn new(e0: T, e1: T, e2: T, e3: T) -> (r: Self)
        ensures
            r.wf(),
            r.ent(0, 0) == e0,
            r.ent(0, 1) == e1,
            r.ent(1, 0) == e2,
            r.ent(1, 1) == e3,
    {
        let mut c0: Vec<T> = Vec::new();
        c0.push(e0);
        c0.push(e2);
        let mut c1: Vec<T> = Vec::new();
        c1.push(e1);
        c1.push(e3);
        let mut data: Vec<Vec<T>> = Vec::new();
        data.push(c0);
        data.push(c1);
        TMatrix { data }
    }
}

impl<T> TMatrix<T, 3, 3> {
    /// Builds the 3-by-3 matrix whose values are listed row by row.
    pub fn new(e0: T, e1: T, e2: T, e3: T, e4: T, e5: T, e6: T, e7: T, e8: T) -> (r: Self)
        ensures
            r.wf(),
            r.ent(0, 0) == e0,
            r.ent(0, 1) == e1,
            r.ent(0, 2) == e2,
            r.ent(1, 0) == e3,
            r.ent(1, 1) == e4,
            r.ent(1, 2) == e5,
            r.ent(2, 0) == e6,
            r.ent(2, 1) == e7,
            r.ent(2, 2) == e8,
    {
        let mut c0: Vec<T> = Vec::new();
        c0.push(e0);
        c0.push(e3);
        c0.push(e6);
        let mut c1: Vec<T> = Vec::new();
        c1.push(e1);
        c1.push(e4);
        c1.push(e7);
        let mut c2: Vec<T> = Vec::new();
        c2.push(e2);
        c2.push(e5);
        c2.push(e8);
        let mut data: Vec<Vec<T>> = Vec::new();
        data.push(c0);
        data.push(c1);
        data.push(c2);
        TMatrix { data }
    }
}

impl<T> TMatrix<T, 4, 4> {
    /// Builds the 4-by-4 matrix whose values are listed row by row.
    pub fn new(
        e0: T,
        e1: T,
        e2: T,
        e3: T,
        e4: T,
        e5: T,
        e6: T,
        e7: T,
        e8: T,
        e9: T,
        e10: T,
        e11: T,
        e12: T,
        e13: T,
        e14: T,
        e15: T,
    ) -> (r: Self)
        ensures
            r.wf(),
            r.ent(0, 0) == e0,
            r.ent(0, 1) == e1,
            r.ent(0, 2) == e2,
            r.ent(0, 3) == e3,
            r.ent(1, 0) == e4,
            r.ent(1, 1) == e5,
            r.ent(1, 2) == e6,
            r.ent(1, 3) == e7,
            r.ent(2, 0) == e8,
            r.ent(2, 1) == e9,
            r.ent(2, 2) == e10,
            r.ent(2, 3) == e11,
            r.ent(3, 0) == e12,
            r.ent(3, 1) == e13,
            r.ent(3, 2) == e14,
            r.ent(3, 3) == e15,
    {
        let mut c0: Vec<T> = Vec::new();
        c0.push(e0);
        c0.push(e4);
        c0.push(e8);
        c0.push(e12);
        let mut c1: Vec<T> = Vec::new();
        c1.push(e1);
        c1.push(e5);
        c1.push(e9);
        c1.push(e13);
        let mut c2: Vec<T> = Vec::new();
        c2.push(e2);
        c2.push(e6);
        c2.push(e10);
        c2.push(e14);
        let mut c3: Vec<T> = Vec::new();
        c3.push(e3);
        c3.push(e7);
        c3.push(e11);
        c3.push(e15);
        let mut data: Vec<Vec<T>> = Vec::new();
        data.push(c0);
        data.push(c1);
        data.push(c2);
        data.push(c3);
        TMatrix { data }
    }
}

impl<T: Copy, const M: usize, const N: usize> TMatrix<T, M, N> {
    /// Builds an `M` by `N` matrix from at least `M * N` values listed in
    /// row-major order: the value for row `r`, column `c` is read from
    /// position `r * N + c` and placed in the column-major storage.
    pub fn from_array(arr: &[T]) -> (r: Self)
        requires
            arr@.len() >= M as int * N as int,
        ensures
            r.wf(),
            forall|i: int, j: int|
                0 <= i < M && 0 <= j < N ==> #[trigger] r.ent(i, j) == arr@[i * N + j],
    {
        let alen: usize = arr.len();
        let mut data: Vec<Vec<T>> = Vec::new();
        let mut c: usize = 0;
        while c < N
            invariant
                arr@.len() >= M as int * N as int,
                arr@.len() == alen,
                c <= N,
                data@.len() == c,
                forall|cc: int| 0 <= cc < c ==> (#[trigger] data@[cc])@.len() == M,
                forall|i: int, j: int|
                    0 <= i < M && 0 <= j < c ==> #[trigger] data@[j]@[i] == arr@[i * N + j],
            decreases N - c,
        {
            let mut col: Vec<T> = Vec::new();
            let mut rr: usize = 0;
            while rr < M
                invariant
                    arr@.len() >= M as int * N as int,
                    arr@.len() == alen,
                    c < N,
                    rr <= M,
                    col@.len() == rr,
                    forall|i: int| 0 <= i < rr ==> col@[i] == arr@[i * N + c],
                decreases M - rr,
            {
                proof {
                    assert((rr as int) * (N as int) + (c as int) < (M as int) * (N as int))
                        by (nonlinear_arith)
                        requires
                            (rr as int) < (M as int),
                            (c as int) < (N as int),
                            0 <= rr as int,
                            0 <= c as int,
                            0 < N as int,
                    ;
                }
                let k: usize = rr * N + c;
                col.push(arr[k]);
                rr += 1;
            }
            data.push(col);
            c += 1;
        }
        TMatrix { data }
    }

    /// The logical element at `rc == (row, column)`. Out-of-range indices are
    /// ruled out by the precondition, matching fixed-size array semantics.
    pub fn index(&self, rc: (usize, usize)) -> (r: T)
        requires
            self.wf(),
            rc.0 < M,
            rc.1 < N,
        ensures
            r == self.ent(rc.0 as int, rc.1 as int),
    {
        let col: &Vec<T> = &self.data[rc.1];
        col[rc.0]
    }
}

/// Shared element-wise primitive: combines two same-shape matrices by applying
/// `f` at every storage position, independent of the logical row/column
/// interpretation.
fn element_wise<T: Copy, const M: usize, const N: usize, F: Fn(T, T) -> T>(
    a: &TMatrix<T, M, N>,
    b: &TMatrix<T, M, N>,
    f: F,
) -> (r: TMatrix<T, M, N>)
    requires
        a.wf(),
        b.wf(),
        forall|i: int, j: int|
            0 <= i < M && 0 <= j < N ==> call_requires(f, (a.ent(i, j), #[trigger] b.ent(i, j))),
    ensures
        r.wf(),
        forall|i: int, j: int|
            0 <= i < M && 0 <= j < N ==> call_ensures(
                f,
                (a.ent(i, j), b.ent(i, j)),
                #[trigger] r.ent(i, j),
            ),
{
    let mut data: Vec<Vec<T>> = Vec::new();
    let mut c: usize = 0;
    while c < N
        invariant
            a.wf(),
            b.wf(),
            forall|i: int, j: int|
                0 <= i < M && 0 <= j < N ==> call_requires(
                    f,
                    (a.ent(i, j), #[trigger] b.ent(i, j)),
                ),
            c <= N,
            data@.len() == c,
            forall|cc: int| 0 <= cc < c ==> (#[trigger] data@[cc])@.len() == M,
            forall|i: int, j: int|
                0 <= i < M && 0 <= j < c ==> call_ensures(
                    f,
                    (a.ent(i, j), b.ent(i, j)),
                    #[trigger] (data@[j])@[i],
                ),
        decreases N - c,
    {
        let mut col: Vec<T> = Vec::new();
        let mut rr: usize = 0;
        while rr < M
            invariant
                a.wf(),
                b.wf(),
                forall|i: int, j: int|
                    0 <= i < M && 0 <= j < N ==> call_requires(
                        f,
                        (a.ent(i, j), #[trigger] b.ent(i, j)),
                    ),
                c < N,
                rr <= M,
                col@.len() == rr,
                forall|i: int|
                    0 <= i < rr ==> call_ensures(
                        f,
                        (a.ent(i, c as int), b.ent(i, c as int)),
                        #[trigger] col@[i],
                    ),
            decreases M - rr,
        {
            let ea: T = {
                let ca: &Vec<T> = &a.data[c];
                ca[rr]
            };
            let eb: T = {
                let cb: &Vec<T> = &b.data[c];
                cb[rr]
            };
            proof {
                assert(ea == a.ent(rr as int, c as int));
                assert(eb == b.ent(rr as int, c as int));
                assert(call_requires(f, (a.ent(rr as int, c as int), b.ent(rr as int, c as int))));
            }
            col.push(f(ea, eb));
            rr += 1;
        }
        data.push(col);
        c += 1;
    }
    TMatrix { data }
}

impl<T: ScalarAdd, const M: usize, const N: usize> TMatrix<T, M, N> {
    /// Element-wise addition: the result at every row and column is the sum of
    /// the operands' elements there.
    pub fn add(&self, other: &Self) -> (r: Self)
        requires
            self.wf(),
            other.wf(),
            forall|i: int, j: int|
                0 <= i < M && 0 <= j < N ==> self.ent(i, j).add_ok(#[trigger] other.ent(i, j)),
        ensures
            r.wf(),
            forall|i: int, j: int|
                0 <= i < M && 0 <= j < N ==> #[trigger] r.ent(i, j) == self.ent(i, j).sp_add(
                    other.ent(i, j),
                ),
    {
        element_wise(
            self,
            other,
            (|x: T, y: T| -> (res: T)
                requires
                    x.add_ok(y),
                ensures
                    res == x.sp_add(y),
                {
                    x.scalar_add(y)
                }),
        )
    }
}

impl<T: ScalarSub, const M: usize, const N: usize> TMatrix<T, M, N> {
    /// Element-wise subtraction.
    pub fn sub(&self, other: &Self) -> (r: Self)
        requires
            self.wf(),
            other.wf(),
            forall|i: int, j: int|
                0 <= i < M && 0 <= j < N ==> self.ent(i, j).sub_ok(#[trigger] other.ent(i, j)),
        ensures
            r.wf(),
            forall|i: int, j: int|
                0 <= i < M && 0 <= j < N ==> #[trigger] r.ent(i, j) == self.ent(i, j).sp_sub(
                    other.ent(i, j),
                ),
    {
        element_wise(
            self,
            other,
            (|x: T, y: T| -> (res: T)
                requires
                    x.sub_ok(y),
                ensures
                    res == x.sp_sub(y),
                {
                    x.scalar_sub(y)
                }),
        )
    }
}

impl<T: ScalarZero + ScalarAdd + ScalarMul, const M: usize, const N: usize> TMatrix<T, M, N> {
    /// Matrix-vector multiplication: element `i` of the result is the dot
    /// product of logical row `i` with the vector, summed in ascending index
    /// order from the additive identity.
    pub fn mul_vector(&self, v: &TVector<T, N>) -> (r: TVector<T, M>)
        requires
            self.wf(),
            v.wf(),
            forall|i: int| 0 <= i < M ==> dot_ok(#[trigger] self.row(i), v@),
        ensures
            r.wf(),
            forall|i: int| 0 <= i < M ==> #[trigger] r@[i] == dot(self.row(i), v@),
    {
        let mut data: Vec<T> = Vec::new();
        let mut i: usize = 0;
        while i < M
            invariant
                self.wf(),
                v.wf(),
                forall|ii: int| 0 <= ii < M ==> dot_ok(#[trigger] self.row(ii), v@),
                i <= M,
                data@.len() == i,
                forall|ii: int| 0 <= ii < i ==> #[trigger] data@[ii] == dot(self.row(ii), v@),
            decreases M - i,
        {
            let ghost a: Seq<T> = self.row(i as int);
            let mut acc: T = T::scalar_zero();
            let mut j: usize = 0;
            while j < N
                invariant
                    self.wf(),
                    v.wf(),
                    i < M,
                    a == self.row(i as int),
                    dot_ok(a, v@),
                    j <= N,
                    acc == dot_prefix(a, v@, j as int),
                decreases N - j,
            {
                proof {
                    lemma_dot_prefix_ok_mono(a, v@, j + 1, N as int);
                    assert(dot_prefix_ok(a, v@, j + 1));
                }
                let prod: T = self.index((i, j)).scalar_mul(v.index(j));
                acc = acc.scalar_add(prod);
                j += 1;
            }
            data.push(acc);
            i += 1;
        }
        TVector { data }
    }
}

impl<T: ScalarZero + ScalarAdd + ScalarMul, const L: usize, const M: usize> TMatrix<T, L, M> {
    /// Matrix-matrix multiplication: an `L` by `M` matrix times an `M` by `N`
    /// matrix is the `L` by `N` matrix whose element at row `i`, column `j` is
    /// the dot product of the left operand's row `i` with the right operand's
    /// column `j`, summed in ascending index order from the additive identity.
    /// The shared inner dimension `M` is matched at compile time.
    pub fn mul_matrix<const N: usize>(&self, other: &TMatrix<T, M, N>) -> (r: TMatrix<T, L, N>)
        requires
            self.wf(),
            other.wf(),
            forall|i: int, j: int|
                0 <= i < L && 0 <= j < N ==> dot_ok(#[trigger] self.row(i), #[trigger] other.col(j)),
        ensures
            r.wf(),
            forall|i: int, j: int|
                0 <= i < L && 0 <= j < N ==> #[trigger] r.ent(i, j) == dot(
                    self.row(i),
                    other.col(j),
                ),
    {
        let mut data: Vec<Vec<T>> = Vec::new();
        let mut j: usize = 0;
        while j < N
            invariant
                self.wf(),
                other.wf(),
                forall|ii: int, jj: int|
                    0 <= ii < L && 0 <= jj < N ==> dot_ok(
                        #[trigger] self.row(ii),
                        #[trigger] other.col(jj),
                    ),
                j <= N,
                data@.len() == j,
                forall|jj: int| 0 <= jj < j ==> (#[trigger] data@[jj])@.len() == L,
                forall|ii: int, jj: int|
                    0 <= ii < L && 0 <= jj < j ==> #[trigger] data@[jj]@[ii] == dot(
                        self.row(ii),
                        other.col(jj),
                    ),
            decreases N - j,
        {
            let ghost b: Seq<T> = other.col(j as int);
            let mut col: Vec<T> = Vec::new();
            let mut i: usize = 0;
            while i < L
                invariant
                    self.wf(),
                    other.wf(),
                    forall|ii: int, jj: int|
                        0 <= ii < L && 0 <= jj < N ==> dot_ok(
                            #[trigger] self.row(ii),
                            #[trigger] other.col(jj),
                        ),
                    j < N,
                    b == other.col(j as int),
                    i <= L,
                    col@.len() == i,
                    forall|ii: int|
                        0 <= ii < i ==> #[trigger] col@[ii] == dot(self.row(ii), b),
                decreases L - i,
            {
                let ghost a: Seq<T> = self.row(i as int);
                let mut acc: T = T::scalar_zero();
                let mut k: usize = 0;
                while k < M
                    invariant
                        self.wf(),
                        other.wf(),
                        i < L,
                        j < N,
                        a == self.row(i as int),
                        b == other.col(j as int),
                        dot_ok(a, b),
                        k <= M,
                        acc == dot_prefix(a, b, k as int),
                    decreases M - k,
                {
                    proof {
                        lemma_dot_prefix_ok_mono(a, b, k + 1, M as int);
                        assert(dot_prefix_ok(a, b, k + 1));
                    }
                    let prod: T = self.index((i, k)).scalar_mul(other.index((k, j)));
                    acc = acc.scalar_add(prod);
                    k += 1;
                }
                col.push(acc);
                i += 1;
            }
            data.push(col);
            j += 1;
        }
        TMatrix { data }
    }
}

/// Law: element-wise adding `b` and then subtracting `b` again gives back the
/// original matrix, entry by entry. Together with the contracts of `add` and
/// `sub`, this says `a.add(b).sub(b)` equals `a` at every row and column,
/// whenever the additions are defined.
pub proof fn lemma_matrix_add_sub_cancel<T: Scalar, const M: usize, const N: usize>(
    a: TMatrix<T, M, N>,
    b: TMatrix<T, M, N>,
)
    requires
        forall|i: int, j: int|
            0 <= i < M && 0 <= j < N ==> a.ent(i, j).add_ok(#[trigger] b.ent(i, j)),
    ensures
        forall|i: int, j: int|
            0 <= i < M && 0 <= j < N ==> (#[trigger] a.ent(i, j).sp_add(b.ent(i, j))).sub_ok(
                b.ent(i, j),
            ),
        forall|i: int, j: int|
            0 <= i < M && 0 <= j < N ==> (#[trigger] a.ent(i, j).sp_add(b.ent(i, j))).sp_sub(
                b.ent(i, j),
            ) == a.ent(i, j),
{
    assert forall|i: int, j: int|
        0 <= i < M && 0 <= j < N implies (#[trigger] a.ent(i, j).sp_add(b.ent(i, j))).sub_ok(
        b.ent(i, j),
    ) && a.ent(i, j).sp_add(b.ent(i, j)).sp_sub(b.ent(i, j)) == a.ent(i, j) by {
        a.ent(i, j).lemma_add_sub_cancel(b.ent(i, j));
    }
}

/// Matrices over the default signed scalar.
pub type Matrix<const M: usize, const N: usize> = TMatrix<i64, M, N>;

pub type Mat2 = Matrix<2, 2>;

} // verus!
