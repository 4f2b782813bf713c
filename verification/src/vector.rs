use vstd::prelude::*;

use crate::scalar::{Scalar, ScalarAdd, ScalarDiv, ScalarMul, ScalarSub, ScalarZero};

verus! {

/// A fixed-length vector: exactly `N` elements of scalar type `T`, never
/// resized. The length is part of the type, so operand lengths are matched at
/// compile time.
pub struct TVector<T, const N: usize> {
    pub data: Vec<T>,
}

impl<T, const N: usize> View for TVector<T, N> {
    type V = Seq<T>;

    open spec fn view(&self) -> Seq<T> {
        self.data@
    }
}

/// Every element of `s` is the additive identity of `T`.
pub open spec fn all_zero<T: ScalarZero>(s: Seq<T>) -> bool {
    forall|i: int| 0 <= i < s.len() ==> s[i] == T::sp_zero()
}

impl<T, const N: usize> TVector<T, N> {
    /// The stored sequence has exactly the length the type promises.
    pub open spec fn wf(&self) -> bool {
        self@.len() == N
    }
}

impl<T> TVector<T, 2> {
    pub fn new(e0: T, e1: T) -> (r: Self)
        ensures
            r.wf(),
            r@ == seq![e0, e1],
    {
        let mut data: Vec<T> = Vec::new();
        data.push(e0);
        data.push(e1);
        proof {
            assert(data@ =~= seq![e0, e1]);
        }
        TVector { data }
    }
}

impl<T> TVector<T, 3> {
    pub fn new(e0: T, e1: T, e2: T) -> (r: Self)
        ensures
            r.wf(),
            r@ == seq![e0, e1, e2],
    {
        let mut data: Vec<T> = Vec::new();
        data.push(e0);
        data.push(e1);
        data.push(e2);
        proof {
            assert(data@ =~= seq![e0, e1, e2]);
        }
        TVector { data }
    }
}

impl<T> TVector<T, 4> {
    pub fn new(e0: T, e1: T, e2: T, e3: T) -> (r: Self)
        ensures
            r.wf(),
            r@ == seq![e0, e1, e2, e3],
    {
        let mut data: Vec<T> = Vec::new();
        data.push(e0);
        data.push(e1);
        data.push(e2);
        data.push(e3);
        proof {
            assert(data@ =~= seq![e0, e1, e2, e3]);
        }
        TVector { data }
    }
}

/// Shared element-wise primitive: combines two same-length vectors by applying
/// `f` to the pair of elements at every index, so that each binary operator
/// only has to say which scalar operation to apply.
fn element_wise<T: Copy, const N: usize, F: Fn(T, T) -> T>(
    a: &TVector<T, N>,
    b: &TVector<T, N>,
    f: F,
) -> (r: TVector<T, N>)
    requires
        a.wf(),
        b.wf(),
        forall|i: int| 0 <= i < N ==> call_requires(f, (a@[i], b@[i])),
    ensures
        r.wf(),
        forall|i: int| 0 <= i < N ==> call_ensures(f, (a@[i], b@[i]), #[trigger] r@[i]),
{
    let mut data: Vec<T> = Vec::new();
    let mut i: usize = 0;
    while i < N
        invariant
            a.wf(),
            b.wf(),
            forall|j: int| 0 <= j < N ==> call_requires(f, (a@[j], b@[j])),
            i <= N,
            data@.len() == i,
            forall|j: int| 0 <= j < i ==> call_ensures(f, (a@[j], b@[j]), #[trigger] data@[j]),
        decreases N - i,
    {
        data.push(f(a.data[i], b.data[i]));
        i += 1;
    }
    TVector { data }
}

impl<T: ScalarZero, const N: usize> TVector<T, N> {
    /// The vector whose every element is the additive identity.
    pub fn zero() -> (r: Self)
        ensures
            r.wf(),
            all_zero::<T>(r@),
    {
        let mut data: Vec<T> = Vec::new();
        let mut i: usize = 0;
        while i < N
            invariant
                i <= N,
                data@.len() == i,
                forall|j: int| 0 <= j < i ==> data@[j] == T::sp_zero(),
            decreases N - i,
        {
            data.push(T::scalar_zero());
            i += 1;
        }
        TVector { data }
    }

    /// True exactly when every element is the additive identity.
    pub fn is_zero(&self) -> (r: bool)
        requires
            self.wf(),
        ensures
            r == all_zero::<T>(self@),
    {
        let mut i: usize = 0;
        while i < N
            invariant
                self.wf(),
                i <= N,
                forall|j: int| 0 <= j < i ==> self@[j] == T::sp_zero(),
            decreases N - i,
        {
            if !self.data[i].scalar_is_zero() {
                return false;
            }
            i += 1;
        }
        true
    }
}

impl<T: ScalarAdd, const N: usize> TVector<T, N> {
    /// Element-wise addition: the result at every index is the sum of the
    /// operands' elements at that index.
    pub fn add(&self, other: &Self) -> (r: Self)
        requires
            self.wf(),
            other.wf(),
            forall|i: int| 0 <= i < N ==> self@[i].add_ok(#[trigger] other@[i]),
        ensures
            r.wf(),
            forall|i: int| 0 <= i < N ==> #[trigger] r@[i] == self@[i].sp_add(other@[i]),
    {
        element_wise(
            self,
            other,
            (|x: T, y: T| -> (res: T)
                requires
                    x.add_ok(y),
                ensures
                    res == x.sp_add(y),
                {
                    x.scalar_add(y)
                }),
        )
    }
}

impl<T: ScalarSub, const N: usize> TVector<T, N> {
    /// Element-wise subtraction.
    pub fn sub(&self, other: &Self) -> (r: Self)
        requires
            self.wf(),
            other.wf(),
            forall|i: int| 0 <= i < N ==> self@[i].sub_ok(#[trigger] other@[i]),
        ensures
            r.wf(),
            forall|i: int| 0 <= i < N ==> #[trigger] r@[i] == self@[i].sp_sub(other@[i]),
    {
        element_wise(
            self,
            other,
            (|x: T, y: T| -> (res: T)
                requires
                    x.sub_ok(y),
                ensures
                    res == x.sp_sub(y),
                {
                    x.scalar_sub(y)
                }),
        )
    }
}

impl<T: ScalarMul, const N: usize> TVector<T, N> {
    /// Element-wise multiplication.
    pub fn mul(&self, other: &Self) -> (r: Self)
        requires
            self.wf(),
            other.wf(),
            forall|i: int| 0 <= i < N ==> self@[i].mul_ok(#[trigger] other@[i]),
        ensures
            r.wf(),
            forall|i: int| 0 <= i < N ==> #[trigger] r@[i] == self@[i].sp_mul(other@[i]),
    {
        element_wise(
            self,
            other,
            (|x: T, y: T| -> (res: T)
                requires
                    x.mul_ok(y),
                ensures
                    res == x.sp_mul(y),
                {
                    x.scalar_mul(y)
                }),
        )
    }
}

impl<T: ScalarDiv, const N: usize> TVector<T, N> {
    /// Element-wise division.
    pub fn div(&self, other: &Self) -> (r: Self)
        requires
            self.wf(),
            other.wf(),
            forall|i: int| 0 <= i < N ==> self@[i].div_ok(#[trigger] other@[i]),
        ensures
            r.wf(),
            forall|i: int| 0 <= i < N ==> #[trigger] r@[i] == self@[i].sp_div(other@[i]),
    {
        element_wise(
            self,
            other,
            (|x: T, y: T| -> (res: T)
                requires
                    x.div_ok(y),
                ensures
                    res == x.sp_div(y),
                {
                    x.scalar_div(y)
                }),
        )
    }
}

impl<T: Copy, const N: usize> TVector<T, N> {
    /// The element at index `i`. Out-of-range indices are ruled out by the
    /// precondition, matching fixed-size array semantics.
    pub fn index(&self, i: usize) -> (r: T)
        requires
            self.wf(),
            i < N,
        ensures
            r == self@[i as int],
    {
        self.data[i]
    }
}

/// Law: element-wise adding `b` and then subtracting `b` again gives back the
/// original elements. Together with the contracts of `add` and `sub` (and of
/// the matrix counterparts, which are element-wise over the same views), this
/// says `a.add(b).sub(b)` equals `a` at every position, whenever the additions
/// are defined.
pub proof fn lemma_add_sub_cancel_elementwise<T: Scalar>(a: Seq<T>, b: Seq<T>)
    requires
        a.len() == b.len(),
        forall|i: int| 0 <= i < a.len() ==> a[i].add_ok(#[trigger] b[i]),
    ensures
        forall|i: int| 0 <= i < a.len() ==> (#[trigger] a[i].sp_add(b[i])).sub_ok(b[i]),
        forall|i: int| 0 <= i < a.len() ==> (#[trigger] a[i].sp_add(b[i])).sp_sub(b[i]) == a[i],
{
    assert forall|i: int|
        0 <= i < a.len() implies (#[trigger] a[i].sp_add(b[i])).sub_ok(b[i])
        && a[i].sp_add(b[i]).sp_sub(b[i]) == a[i] by {
        a[i].lemma_add_sub_cancel(b[i]);
    }
}

/// Vectors over the default signed scalar.
pub type Vector<const N: usize> = TVector<i64, N>;

pub type Vec2 = Vector<2>;

pub type Vec3 = Vector<3>;

pub type Vec4 = Vector<4>;

} // verus!
