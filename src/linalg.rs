//! Homogeneous 2D affine algebra over fixed-point numbers.
//!
//! A value `v` stands for the real number `v / ONE`. Points are row vectors and
//! a matrix acts on the right: `p' = p * M`.
use vstd::prelude::*;

verus! {

/// The fixed-point unit: `ONE` stands for `1.0`.
pub const ONE: i64 = 65536;

/// Floor of `x / ONE`: how a fixed-point product is brought back to scale.
pub open spec fn fdiv(x: int) -> int {
    x / (ONE as int)
}

/// Whether `x` is representable as an `i64`.
pub open spec fn fits(x: int) -> bool {
    i64::MIN <= x <= i64::MAX
}

/// Floor division of an `i128` by the fixed-point unit.
pub fn floor_unit(x: i128) -> (r: i128)
    ensures
        r == fdiv(x as int),
{
    let q = x / (ONE as i128);
    let m = x % (ONE as i128);
    if m < 0 {
        q - 1
    } else {
        q
    }
}

/// A 3×3 fixed-point matrix, entries named by row and column.
#[derive(Clone, Copy, Debug, PartialEq, Eq, Structural)]
pub struct Matrix {
    pub m00: i64,
    pub m01: i64,
    pub m02: i64,
    pub m10: i64,
    pub m11: i64,
    pub m12: i64,
    pub m20: i64,
    pub m21: i64,
    pub m22: i64,
}

/// A homogeneous row vector `(x, y, w)` in fixed point.
#[derive(Clone, Copy, Debug, PartialEq, Eq, Structural)]
pub struct Vector {
    pub x: i64,
    pub y: i64,
    pub w: i64,
}

impl Matrix {
    pub open spec fn entry(self, i: int, j: int) -> int {
        if i == 0 {
            if j == 0 { self.m00 as int } else if j == 1 { self.m01 as int } else { self.m02 as int }
        } else if i == 1 {
            if j == 0 { self.m10 as int } else if j == 1 { self.m11 as int } else { self.m12 as int }
        } else {
            if j == 0 { self.m20 as int } else if j == 1 { self.m21 as int } else { self.m22 as int }
        }
    }

    pub open spec fn spec_identity() -> Matrix {
        Matrix { m00: ONE, m01: 0, m02: 0, m10: 0, m11: ONE, m12: 0, m20: 0, m21: 0, m22: ONE }
    }

    /// Entry `(i, j)` of the exact fixed-point product `a * b`.
    pub open spec fn product_entry(a: Matrix, b: Matrix, i: int, j: int) -> int {
        fdiv(a.entry(i, 0) * b.entry(0, j) + a.entry(i, 1) * b.entry(1, j) + a.entry(i, 2) * b.entry(2, j))
    }

    pub open spec fn product_fits(a: Matrix, b: Matrix) -> bool {
        forall|i: int, j: int| 0 <= i < 3 && 0 <= j < 3 ==> fits(#[trigger] Matrix::product_entry(a, b, i, j))
    }

    /// The product `a * b`, or `None` where an entry leaves the `i64` range.
    pub open spec fn spec_mul(a: Matrix, b: Matrix) -> Option<Matrix> {
        if Matrix::product_fits(a, b) {
            Some(Matrix {
                m00: Matrix::product_entry(a, b, 0, 0) as i64,
                m01: Matrix::product_entry(a, b, 0, 1) as i64,
                m02: Matrix::product_entry(a, b, 0, 2) as i64,
                m10: Matrix::product_entry(a, b, 1, 0) as i64,
                m11: Matrix::product_entry(a, b, 1, 1) as i64,
                m12: Matrix::product_entry(a, b, 1, 2) as i64,
                m20: Matrix::product_entry(a, b, 2, 0) as i64,
                m21: Matrix::product_entry(a, b, 2, 1) as i64,
                m22: Matrix::product_entry(a, b, 2, 2) as i64,
            })
        } else {
            None
        }
    }

    /// The multiplicative unit.
    pub fn identity() -> (r: Matrix)
        ensures
            r == Matrix::spec_identity(),
    {
        Matrix { m00: ONE, m01: 0, m02: 0, m10: 0, m11: ONE, m12: 0, m20: 0, m21: 0, m22: ONE }
    }

    /// Standard 3×3 product `self * rhs`; `None` where an entry would not fit an `i64`.
    pub fn mul(&self, rhs: &Matrix) -> (r: Option<Matrix>)
        ensures
            r == Matrix::spec_mul(*self, *rhs),
    {
        let a = self;
        let b = rhs;
        let e00 = dot3(a.m00, a.m01, a.m02, b.m00, b.m10, b.m20);
        let e01 = dot3(a.m00, a.m01, a.m02, b.m01, b.m11, b.m21);
        let e02 = dot3(a.m00, a.m01, a.m02, b.m02, b.m12, b.m22);
        let e10 = dot3(a.m10, a.m11, a.m12, b.m00, b.m10, b.m20);
        let e11 = dot3(a.m10, a.m11, a.m12, b.m01, b.m11, b.m21);
        let e12 = dot3(a.m10, a.m11, a.m12, b.m02, b.m12, b.m22);
        let e20 = dot3(a.m20, a.m21, a.m22, b.m00, b.m10, b.m20);
        let e21 = dot3(a.m20, a.m21, a.m22, b.m01, b.m11, b.m21);
        let e22 = dot3(a.m20, a.m21, a.m22, b.m02, b.m12, b.m22);
        match (e00, e01, e02, e10, e11, e12, e20, e21, e22) {
            (Some(m00), Some(m01), Some(m02), Some(m10), Some(m11), Some(m12), Some(m20), Some(m21), Some(m22)) => {
                Some(Matrix { m00, m01, m02, m10, m11, m12, m20, m21, m22 })
            },
            _ => {
                None
            },
        }
    }
}

impl Vector {
    /// The row vector `self * m`, or `None` where a coordinate leaves the `i64` range.
    pub open spec fn spec_apply(self, m: Matrix) -> Option<Vector> {
        match (
            dot3_spec(self.x as int, self.y as int, self.w as int, m.m00 as int, m.m10 as int, m.m20 as int),
            dot3_spec(self.x as int, self.y as int, self.w as int, m.m01 as int, m.m11 as int, m.m21 as int),
            dot3_spec(self.x as int, self.y as int, self.w as int, m.m02 as int, m.m12 as int, m.m22 as int),
        ) {
            (Some(x), Some(y), Some(w)) => Some(Vector { x, y, w }),
            _ => None,
        }
    }

    /// Row vector times matrix: `self * m`.
    pub fn apply(&self, m: &Matrix) -> (r: Option<Vector>)
        ensures
            r == self.spec_apply(*m),
    {
        let x = dot3(self.x, self.y, self.w, m.m00, m.m10, m.m20);
        let y = dot3(self.x, self.y, self.w, m.m01, m.m11, m.m21);
        let w = dot3(self.x, self.y, self.w, m.m02, m.m12, m.m22);
        match (x, y, w) {
            (Some(x), Some(y), Some(w)) => Some(Vector { x, y, w }),
            _ => None,
        }
    }
}

/// The identity is a left unit of the product.
pub proof fn lemma_identity_mul(m: Matrix)
    ensures
        Matrix::spec_mul(Matrix::spec_identity(), m) == Some(m),
{
    let id = Matrix::spec_identity();
    assert forall|i: int, j: int| 0 <= i < 3 && 0 <= j < 3 implies #[trigger] Matrix::product_entry(id, m, i, j) == m.entry(i, j) by {
        lemma_unit_scale(m.entry(i, j));
        if i == 0 {
            assert(Matrix::product_entry(id, m, i, j) == fdiv(ONE * m.entry(0, j) + 0 * m.entry(1, j) + 0 * m.entry(2, j)));
        } else if i == 1 {
            assert(Matrix::product_entry(id, m, i, j) == fdiv(0 * m.entry(0, j) + ONE * m.entry(1, j) + 0 * m.entry(2, j)));
        } else {
            assert(Matrix::product_entry(id, m, i, j) == fdiv(0 * m.entry(0, j) + 0 * m.entry(1, j) + ONE * m.entry(2, j)));
        }
    }
}

/// The identity is a right unit of the product.
pub proof fn lemma_mul_identity(m: Matrix)
    ensures
        Matrix::spec_mul(m, Matrix::spec_identity()) == Some(m),
{
    let id = Matrix::spec_identity();
    assert forall|i: int, j: int| 0 <= i < 3 && 0 <= j < 3 implies #[trigger] Matrix::product_entry(m, id, i, j) == m.entry(i, j) by {
        lemma_unit_scale(m.entry(i, j));
    }
}

/// Scaling by the unit and flooring back gives the value itself.
pub proof fn lemma_unit_scale(x: int)
    ensures
        fdiv(x * ONE) == x,
        fdiv(ONE * x) == x,
{
    vstd::arithmetic::div_mod::lemma_fundamental_div_mod_converse_div(x * 65536, 65536, x, 0);
}

pub open spec fn dot3_spec(a0: int, a1: int, a2: int, b0: int, b1: int, b2: int) -> Option<i64> {
    let v = fdiv(a0 * b0 + a1 * b1 + a2 * b2);
    if fits(v) {
        Some(v as i64)
    } else {
        None
    }
}

/// `floor((a0*b0 + a1*b1 + a2*b2) / ONE)`, or `None` where it does not fit an `i64`.
fn dot3(a0: i64, a1: i64, a2: i64, b0: i64, b1: i64, b2: i64) -> (r: Option<i64>)
    ensures
        r == dot3_spec(a0 as int, a1 as int, a2 as int, b0 as int, b1 as int, b2 as int),
{
    proof {
        lemma_prod_bound(a0 as int, b0 as int);
        lemma_prod_bound(a1 as int, b1 as int);
        lemma_prod_bound(a2 as int, b2 as int);
    }
    let prod0 = (a0 as i128) * (b0 as i128);
    let prod1 = (a1 as i128) * (b1 as i128);
    let prod2 = (a2 as i128) * (b2 as i128);
    // Halve the terms first so the sum cannot overflow `i128`: the product is
    // taken back to scale in two floor steps, which equals one floor step.
    let s = floor_half(prod0) + floor_half(prod1) + floor_half(prod2);
    let rem = (prod0 - 2 * floor_half(prod0)) + (prod1 - 2 * floor_half(prod1)) + (prod2 - 2 * floor_half(prod2));
    let total_half = s + floor_half(rem);
    let v = floor_half_unit(total_half);
    proof {
        let t = a0 * b0 + a1 * b1 + a2 * b2;
        assert(t == 2 * (s as int) + rem as int);
        assert(total_half as int == t / 2);
        lemma_floor_twice(t);
    }
    if v < i64::MIN as i128 || v > i64::MAX as i128 {
        None
    } else {
        Some(v as i64)
    }
}

fn floor_half(x: i128) -> (r: i128)
    ensures
        r == x as int / 2,
        x as int - 2 * r == x as int % 2,
{
    let q = x / 2;
    let m = x % 2;
    if m < 0 {
        q - 1
    } else {
        q
    }
}

fn floor_half_unit(x: i128) -> (r: i128)
    ensures
        r == x as int / 32768,
{
    let q = x / 32768;
    let m = x % 32768;
    if m < 0 {
        q - 1
    } else {
        q
    }
}

proof fn lemma_prod_bound(a: int, b: int)
    requires
        fits(a),
        fits(b),
    ensures
        -0x4000_0000_0000_0000_0000_0000_0000_0000 <= a * b <= 0x4000_0000_0000_0000_0000_0000_0000_0000,
{
    vstd::arithmetic::mul::lemma_mul_upper_bound(if a < 0 { -a } else { a }, 0x8000_0000_0000_0000, if b < 0 { -b } else { b }, 0x8000_0000_0000_0000);
    assert(a * b == (if a < 0 { -a } else { a }) * (if b < 0 { -b } else { b }) || a * b == -((if a < 0 { -a } else { a }) * (if b < 0 { -b } else { b }))) by (nonlinear_arith);
}

proof fn lemma_floor_twice(t: int)
    ensures
        (t / 2) / 32768 == t / (ONE as int),
{
    let q = t / 65536;
    let r = t % 65536;
    vstd::arithmetic::div_mod::lemma_fundamental_div_mod(t, 65536);
    let h = q * 32768 + r / 2;
    assert(t == h * 2 + r % 2);
    vstd::arithmetic::div_mod::lemma_fundamental_div_mod_converse_div(t, 2, h, r % 2);
    vstd::arithmetic::div_mod::lemma_fundamental_div_mod_converse_div(h, 32768, q, r / 2);
}

} // verus!
