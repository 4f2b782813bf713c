use vstd::prelude::*;

verus! {

/// Division as the machine performs it on signed integers: the quotient of the
/// magnitudes, with the sign of the operands' product (rounding toward zero).
pub open spec fn truncated_div(a: int, b: int) -> int {
    let ma = if a < 0 {
        -a
    } else {
        a
    };
    let mb = if b < 0 {
        -b
    } else {
        b
    };
    if (a < 0) == (b < 0) {
        ma / mb
    } else {
        -(ma / mb)
    }
}

/// A scalar with an additive identity. Each operation a vector or matrix
/// function needs is stated as its own capability trait, so every generic
/// function can demand exactly the operator set it uses and no more.
pub trait ScalarZero: Sized + Copy {
    /// The additive identity.
    spec fn sp_zero() -> Self;

    fn scalar_zero() -> (r: Self)
        ensures
            r == Self::sp_zero(),
    ;

    fn scalar_is_zero(self) -> (r: bool)
        ensures
            r == (self == Self::sp_zero()),
    ;
}

/// A scalar that can be added. `add_ok` says when the machine operation is
/// defined (no overflow); under it, the result is pinned to `sp_add`.
pub trait ScalarAdd: Sized + Copy {
    /// Specification-level addition.
    spec fn sp_add(self, rhs: Self) -> Self;

    /// When machine addition is defined.
    spec fn add_ok(self, rhs: Self) -> bool;

    fn scalar_add(self, rhs: Self) -> (r: Self)
        requires
            self.add_ok(rhs),
        ensures
            r == self.sp_add(rhs),
    ;
}

/// A scalar that can be subtracted.
pub trait ScalarSub: Sized + Copy {
    /// Specification-level subtraction.
    spec fn sp_sub(self, rhs: Self) -> Self;

    /// When machine subtraction is defined.
    spec fn sub_ok(self, rhs: Self) -> bool;

    fn scalar_sub(self, rhs: Self) -> (r: Self)
        requires
            self.sub_ok(rhs),
        ensures
            r == self.sp_sub(rhs),
    ;
}

/// A scalar that can be multiplied.
pub trait ScalarMul: Sized + Copy {
    /// Specification-level multiplication.
    spec fn sp_mul(self, rhs: Self) -> Self;

    /// When machine multiplication is defined.
    spec fn mul_ok(self, rhs: Self) -> bool;

    fn scalar_mul(self, rhs: Self) -> (r: Self)
        requires
            self.mul_ok(rhs),
        ensures
            r == self.sp_mul(rhs),
    ;
}

/// A scalar that can be divided.
pub trait ScalarDiv: Sized + Copy {
    /// Specification-level division.
    spec fn sp_div(self, rhs: Self) -> Self;

    /// When machine division is defined (nonzero divisor, no overflow).
    spec fn div_ok(self, rhs: Self) -> bool;

    fn scalar_div(self, rhs: Self) -> (r: Self)
        requires
            self.div_ok(rhs),
        ensures
            r == self.sp_div(rhs),
    ;
}

/// The full scalar bundle, together with the law that ties addition and
/// subtraction to each other.
pub trait Scalar: ScalarZero + ScalarAdd + ScalarSub + ScalarMul + ScalarDiv {
    /// Law every scalar must obey: wherever addition is defined, subtracting
    /// the addend again is also defined and gives back the original value.
    proof fn lemma_add_sub_cancel(self, rhs: Self)
        requires
            self.add_ok(rhs),
        ensures
            self.sp_add(rhs).sub_ok(rhs),
            self.sp_add(rhs).sp_sub(rhs) == self,
    ;
}

impl ScalarZero for i64 {
    open spec fn sp_zero() -> Self {
        0i64
    }

    fn scalar_zero() -> (r: Self) {
        0i64
    }

    fn scalar_is_zero(self) -> (r: bool) {
        self == 0i64
    }
}

impl ScalarAdd for i64 {
    open spec fn sp_add(self, rhs: Self) -> Self {
        (self + rhs) as i64
    }

    open spec fn add_ok(self, rhs: Self) -> bool {
        i64::MIN <= self + rhs <= i64::MAX
    }

    fn scalar_add(self, rhs: Self) -> (r: Self) {
        self + rhs
    }
}

impl ScalarSub for i64 {
    open spec fn sp_sub(self, rhs: Self) -> Self {
        (self - rhs) as i64
    }

    open spec fn sub_ok(self, rhs: Self) -> bool {
        i64::MIN <= self - rhs <= i64::MAX
    }

    fn scalar_sub(self, rhs: Self) -> (r: Self) {
        self - rhs
    }
}

impl ScalarMul for i64 {
    open spec fn sp_mul(self, rhs: Self) -> Self {
        (self * rhs) as i64
    }

    open spec fn mul_ok(self, rhs: Self) -> bool {
        i64::MIN <= self * rhs <= i64::MAX
    }

    fn scalar_mul(self, rhs: Self) -> (r: Self) {
        self * rhs
    }
}

impl ScalarDiv for i64 {
    open spec fn sp_div(self, rhs: Self) -> Self {
        truncated_div(self as int, rhs as int) as i64
    }

    open spec fn div_ok(self, rhs: Self) -> bool {
        rhs != 0 && !(self == i64::MIN && rhs < 0)
    }

    fn scalar_div(self, rhs: Self) -> (r: Self) {
        if rhs == i64::MIN {
            0
        } else if rhs < 0 {
            (-self) / (-rhs)
        } else {
            self / rhs
        }
    }
}

impl Scalar for i64 {
    proof fn lemma_add_sub_cancel(self, rhs: Self) {
    }
}

impl ScalarZero for i32 {
    open spec fn sp_zero() -> Self {
        0i32
    }

    fn scalar_zero() -> (r: Self) {
        0i32
    }

    fn scalar_is_zero(self) -> (r: bool) {
        self == 0i32
    }
}

impl ScalarAdd for i32 {
    open spec fn sp_add(self, rhs: Self) -> Self {
        (self + rhs) as i32
    }

    open spec fn add_ok(self, rhs: Self) -> bool {
        i32::MIN <= self + rhs <= i32::MAX
    }

    fn scalar_add(self, rhs: Self) -> (r: Self) {
        self + rhs
    }
}

impl ScalarSub for i32 {
    open spec fn sp_sub(self, rhs: Self) -> Self {
        (self - rhs) as i32
    }

    open spec fn sub_ok(self, rhs: Self) -> bool {
        i32::MIN <= self - rhs <= i32::MAX
    }

    fn scalar_sub(self, rhs: Self) -> (r: Self) {
        self - rhs
    }
}

impl ScalarMul for i32 {
    open spec fn sp_mul(self, rhs: Self) -> Self {
        (self * rhs) as i32
    }

    open spec fn mul_ok(self, rhs: Self) -> bool {
        i32::MIN <= self * rhs <= i32::MAX
    }

    fn scalar_mul(self, rhs: Self) -> (r: Self) {
        self * rhs
    }
}

impl ScalarDiv for i32 {
    open spec fn sp_div(self, rhs: Self) -> Self {
        truncated_div(self as int, rhs as int) as i32
    }

    open spec fn div_ok(self, rhs: Self) -> bool {
        rhs != 0 && !(self == i32::MIN && rhs < 0)
    }

    fn scalar_div(self, rhs: Self) -> (r: Self) {
        if rhs == i32::MIN {
            0
        } else if rhs < 0 {
            (-self) / (-rhs)
        } else {
            self / rhs
        }
    }
}

impl Scalar for i32 {
    proof fn lemma_add_sub_cancel(self, rhs: Self) {
    }
}

impl ScalarZero for u64 {
    open spec fn sp_zero() -> Self {
        0u64
    }

    fn scalar_zero() -> (r: Self) {
        0u64
    }

    fn scalar_is_zero(self) -> (r: bool) {
        self == 0u64
    }
}

impl ScalarAdd for u64 {
    open spec fn sp_add(self, rhs: Self) -> Self {
        (self + rhs) as u64
    }

    open spec fn add_ok(self, rhs: Self) -> bool {
        self + rhs <= u64::MAX
    }

    fn scalar_add(self, rhs: Self) -> (r: Self) {
        self + rhs
    }
}

impl ScalarSub for u64 {
    open spec fn sp_sub(self, rhs: Self) -> Self {
        (self - rhs) as u64
    }

    open spec fn sub_ok(self, rhs: Self) -> bool {
        rhs <= self
    }

    fn scalar_sub(self, rhs: Self) -> (r: Self) {
        self - rhs
    }
}

impl ScalarMul for u64 {
    open spec fn sp_mul(self, rhs: Self) -> Self {
        (self * rhs) as u64
    }

    open spec fn mul_ok(self, rhs: Self) -> bool {
        self * rhs <= u64::MAX
    }

    fn scalar_mul(self, rhs: Self) -> (r: Self) {
        self * rhs
    }
}

impl ScalarDiv for u64 {
    open spec fn sp_div(self, rhs: Self) -> Self {
        (self / rhs) as u64
    }

    open spec fn div_ok(self, rhs: Self) -> bool {
        rhs != 0
    }

    fn scalar_div(self, rhs: Self) -> (r: Self) {
        self / rhs
    }
}

impl Scalar for u64 {
    proof fn lemma_add_sub_cancel(self, rhs: Self) {
    }
}

} // verus!
