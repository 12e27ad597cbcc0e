//! The four interpolatable affine operations and their composition.
//!
//! Angles are fixed-point degrees, offsets fixed-point pixels, factors
//! fixed-point ratios, and progress a fixed-point fraction in `[0, ONE]`.
use vstd::prelude::*;
use crate::linalg::{fdiv, floor_unit, lemma_identity_mul, lemma_unit_scale, Matrix, ONE};

verus! {

/// `start + (end - start) * t`, floored to the fixed-point grid.
pub open spec fn lerp_spec(start: int, end: int, t: int) -> int {
    start + fdiv((end - start) * t)
}

proof fn lemma_lerp_bounds(start: int, end: int, t: int)
    requires
        0 <= t <= ONE,
    ensures
        start <= end ==> start <= lerp_spec(start, end, t) <= end,
        end <= start ==> end <= lerp_spec(start, end, t) <= start,
        lerp_spec(start, end, 0) == start,
        lerp_spec(start, end, ONE as int) == end,
{
    let d = end - start;
    lemma_unit_scale(d);
    assert(0 * d == 0);
    assert(fdiv(0) == 0);
    if d >= 0 {
        assert(0 <= d * t <= d * ONE) by (nonlinear_arith)
            requires d >= 0, 0 <= t <= ONE;
        vstd::arithmetic::div_mod::lemma_div_is_ordered(0, d * t, ONE as int);
        vstd::arithmetic::div_mod::lemma_div_is_ordered(d * t, d * ONE, ONE as int);
    } else {
        assert(d * ONE <= d * t <= 0) by (nonlinear_arith)
            requires d < 0, 0 <= t <= ONE;
        vstd::arithmetic::div_mod::lemma_div_is_ordered(d * t, 0, ONE as int);
        vstd::arithmetic::div_mod::lemma_div_is_ordered(d * ONE, d * t, ONE as int);
    }
}

/// Linear interpolation from `start` to `end` at progress `t` (`ONE` is the end).
pub fn lerp(start: i64, end: i64, t: i64) -> (r: i64)
    requires
        0 <= t <= ONE,
    ensures
        r == lerp_spec(start as int, end as int, t as int),
{
    proof {
        lemma_lerp_bounds(start as int, end as int, t as int);
        assert(-0x1_0000_0000_0000_0000_0000 <= (end - start) * t <= 0x1_0000_0000_0000_0000_0000) by (nonlinear_arith)
            requires
                -0x1_0000_0000_0000_0000 <= end - start <= 0x1_0000_0000_0000_0000,
                0 <= t <= 65536;
    }
    let d = (end as i128 - start as i128) * (t as i128);
    let step = floor_unit(d);
    (start as i128 + step) as i64
}

/// A half turn in fixed-point degrees.
pub const HALF_TURN: i64 = 180 * ONE;

/// A full turn in fixed-point degrees.
pub const FULL_TURN: i64 = 360 * ONE;

/// The angle brought into `(-180°, 180°]`.
pub open spec fn wrap_angle(a: int) -> int {
    let r = a % (FULL_TURN as int);
    if r > HALF_TURN { r - FULL_TURN } else { r }
}

/// Bhaskara I's sine on a half turn, for `0 <= m <= 180°` in fixed point:
/// `4m(180 - m) / (40500 - m(180 - m))` with `m` in degrees, rounded toward
/// zero. It is exact at 0°, 30°, 90°, 150° and 180°, and within 0.002 of the
/// sine everywhere else.
pub open spec fn half_turn_sine(m: int) -> int {
    let y = m * (HALF_TURN - m);
    (4 * y * ONE) / (40500 * ONE * ONE - y)
}

/// The sine of an angle in fixed-point degrees, as a fixed-point value: the
/// half-turn formula on the magnitude of the angle brought into
/// `(-180°, 180°]`, with the angle's sign.
pub open spec fn sin_spec(a: int) -> int {
    let r = wrap_angle(a);
    if r < 0 { -half_turn_sine(-r) } else { half_turn_sine(r) }
}

/// Cosine as the sine shifted by a quarter turn.
pub open spec fn cos_spec(a: int) -> int {
    sin_spec(a + 90 * ONE)
}

proof fn lemma_half_turn_sine(m: int)
    requires
        0 <= m <= HALF_TURN,
    ensures
        0 <= m * (HALF_TURN - m) <= 8100 * ONE * ONE,
        0 <= half_turn_sine(m) <= ONE,
{
    let y = m * (HALF_TURN - m);
    assert(0 <= y <= 8100 * 65536 * 65536) by (nonlinear_arith)
        requires
            y == m * (HALF_TURN - m),
            0 <= m <= HALF_TURN,
            HALF_TURN == 180 * 65536;
    let num = 4 * y * ONE;
    let den = 40500 * ONE * ONE - y;
    assert(num <= den * ONE);
    vstd::arithmetic::div_mod::lemma_div_is_ordered(0, num, den);
    vstd::arithmetic::div_mod::lemma_div_is_ordered(num, den * ONE, den);
    vstd::arithmetic::div_mod::lemma_div_by_multiple(ONE as int, den);
    assert(den * ONE == ONE * den);
}

/// The sine stays within `[-1, 1]`.
pub proof fn lemma_sin_bounds(a: int)
    ensures
        -ONE <= sin_spec(a) <= ONE,
{
    let r = wrap_angle(a);
    assert(-HALF_TURN < r <= HALF_TURN);
    if r < 0 {
        lemma_half_turn_sine(-r);
    } else {
        lemma_half_turn_sine(r);
    }
}

/// The sine is odd: `sin(-a) == -sin(a)` for every angle.
pub proof fn lemma_sin_odd(a: int)
    ensures
        sin_spec(-a) == -sin_spec(a),
{
    let t = FULL_TURN as int;
    let q = a % t;
    vstd::arithmetic::div_mod::lemma_fundamental_div_mod(a, t);
    if q == 0 {
        vstd::arithmetic::div_mod::lemma_fundamental_div_mod_converse(-a, t, -(a / t), 0);
        assert((-a) % t == 0);
    } else {
        vstd::arithmetic::div_mod::lemma_fundamental_div_mod_converse(-a, t, -(a / t) - 1, t - q);
        assert((-a) % t == t - q);
        if q == HALF_TURN {
            assert(half_turn_sine(HALF_TURN as int) == 0);
        }
    }
}

fn bhaskara_sin(a: i128) -> (r: i64)
    requires
        -0x1_0000_0000_0000_0000 <= a <= 0x1_0000_0000_0000_0000,
    ensures
        r == sin_spec(a as int),
{
    let turn = FULL_TURN as i128;
    let q = a % turn;
    let q = if q < 0 { q + turn } else { q };
    assert(q == a as int % (FULL_TURN as int));
    let r = if q > HALF_TURN as i128 { q - turn } else { q };
    let m = if r < 0 { -r } else { r };
    proof {
        assert(-HALF_TURN < r <= HALF_TURN);
        lemma_half_turn_sine(m as int);
    }
    let y = m * (HALF_TURN as i128 - m);
    let num = 4 * y * (ONE as i128);
    let den = 40500 * (ONE as i128) * (ONE as i128) - y;
    let mag = num / den;
    if r < 0 {
        -(mag as i64)
    } else {
        mag as i64
    }
}

/// Sine of an angle in fixed-point degrees, as a fixed-point value.
pub fn sin(angle: i64) -> (r: i64)
    ensures
        r == sin_spec(angle as int),
{
    bhaskara_sin(angle as i128)
}

/// Cosine of an angle in fixed-point degrees, as a fixed-point value.
pub fn cos(angle: i64) -> (r: i64)
    ensures
        r == cos_spec(angle as int),
{
    bhaskara_sin(angle as i128 + 90 * (ONE as i128))
}

/// Rotation by an angle interpolated from `start_angle` to `end_angle`.
#[derive(Clone, Copy, Debug, PartialEq, Eq, Structural)]
pub struct Rotate {
    pub start_angle: i64,
    pub end_angle: i64,
}

/// Translation by an offset interpolated from `start` to `end`.
#[derive(Clone, Copy, Debug)]
pub struct Translate {
    pub start: [i64; 2],
    pub end: [i64; 2],
}

/// Axis scaling by factors interpolated from `start` to `end`.
#[derive(Clone, Copy, Debug)]
pub struct Scale {
    pub start: [i64; 2],
    pub end: [i64; 2],
}

/// Shear coupling x and y by factors interpolated from `start` to `end`.
#[derive(Clone, Copy, Debug)]
pub struct Shear {
    pub start: [i64; 2],
    pub end: [i64; 2],
}

/// One interpolatable affine operation.
#[derive(Clone, Copy, Debug)]
pub enum Transformation {
    Rotate(Rotate),
    Translate(Translate),
    Scale(Scale),
    Shear(Shear),
}

/// `[[cos, -sin, 0], [sin, cos, 0], [0, 0, 1]]`.
pub open spec fn rotation_matrix(angle: int) -> Matrix {
    Matrix {
        m00: cos_spec(angle) as i64,
        m01: (-sin_spec(angle)) as i64,
        m02: 0,
        m10: sin_spec(angle) as i64,
        m11: cos_spec(angle) as i64,
        m12: 0,
        m20: 0,
        m21: 0,
        m22: ONE,
    }
}

/// The identity with its translation row set to `(x, y)`.
pub open spec fn translation_matrix(x: int, y: int) -> Matrix {
    Matrix { m00: ONE, m01: 0, m02: 0, m10: 0, m11: ONE, m12: 0, m20: x as i64, m21: y as i64, m22: ONE }
}

/// `diag(x, y, 1)`.
pub open spec fn scale_matrix(x: int, y: int) -> Matrix {
    Matrix { m00: x as i64, m01: 0, m02: 0, m10: 0, m11: y as i64, m12: 0, m20: 0, m21: 0, m22: ONE }
}

/// `[[1, y, 0], [x, 1, 0], [0, 0, 1]]`.
pub open spec fn shear_matrix(x: int, y: int) -> Matrix {
    Matrix { m00: ONE, m01: y as i64, m02: 0, m10: x as i64, m11: ONE, m12: 0, m20: 0, m21: 0, m22: ONE }
}

impl Rotate {
    pub fn new(start_angle: i64, end_angle: i64) -> (r: Rotate)
        ensures
            r == (Rotate { start_angle, end_angle }),
    {
        Rotate { start_angle, end_angle }
    }

    pub open spec fn spec_apply(self, t: int) -> Matrix {
        rotation_matrix(lerp_spec(self.start_angle as int, self.end_angle as int, t))
    }

    /// The rotation matrix at progress `t`.
    pub fn apply(&self, t: i64) -> (r: Matrix)
        requires
            0 <= t <= ONE,
        ensures
            r == self.spec_apply(t as int),
    {
        let angle = lerp(self.start_angle, self.end_angle, t);
        let c = cos(angle);
        let s = sin(angle);
        proof {
            lemma_sin_bounds(angle as int);
            lemma_sin_bounds(angle + 90 * ONE);
        }
        Matrix { m00: c, m01: -s, m02: 0, m10: s, m11: c, m12: 0, m20: 0, m21: 0, m22: ONE }
    }
}

impl Translate {
    pub fn new(start: [i64; 2], end: [i64; 2]) -> (r: Translate)
        ensures
            r == (Translate { start, end }),
    {
        Translate { start, end }
    }

    pub open spec fn spec_apply(self, t: int) -> Matrix {
        translation_matrix(
            lerp_spec(self.start[0] as int, self.end[0] as int, t),
            lerp_spec(self.start[1] as int, self.end[1] as int, t),
        )
    }

    /// The translation matrix at progress `t`.
    pub fn apply(&self, t: i64) -> (r: Matrix)
        requires
            0 <= t <= ONE,
        ensures
            r == self.spec_apply(t as int),
    {
        let x = lerp(self.start[0], self.end[0], t);
        let y = lerp(self.start[1], self.end[1], t);
        Matrix { m00: ONE, m01: 0, m02: 0, m10: 0, m11: ONE, m12: 0, m20: x, m21: y, m22: ONE }
    }
}

impl Scale {
    pub fn new(start: [i64; 2], end: [i64; 2]) -> (r: Scale)
        ensures
            r == (Scale { start, end }),
    {
        Scale { start, end }
    }

    pub open spec fn spec_apply(self, t: int) -> Matrix {
        scale_matrix(
            lerp_spec(self.start[0] as int, self.end[0] as int, t),
            lerp_spec(self.start[1] as int, self.end[1] as int, t),
        )
    }

    /// The scaling matrix at progress `t`.
    pub fn apply(&self, t: i64) -> (r: Matrix)
        requires
            0 <= t <= ONE,
        ensures
            r == self.spec_apply(t as int),
    {
        let x = lerp(self.start[0], self.end[0], t);
        let y = lerp(self.start[1], self.end[1], t);
        Matrix { m00: x, m01: 0, m02: 0, m10: 0, m11: y, m12: 0, m20: 0, m21: 0, m22: ONE }
    }
}

impl Shear {
    pub fn new(start: [i64; 2], end: [i64; 2]) -> (r: Shear)
        ensures
            r == (Shear { start, end }),
    {
        Shear { start, end }
    }

    pub open spec fn spec_apply(self, t: int) -> Matrix {
        shear_matrix(
            lerp_spec(self.start[0] as int, self.end[0] as int, t),
            lerp_spec(self.start[1] as int, self.end[1] as int, t),
        )
    }

    /// The shear matrix at progress `t`.
    pub fn apply(&self, t: i64) -> (r: Matrix)
        requires
            0 <= t <= ONE,
        ensures
            r == self.spec_apply(t as int),
    {
        let x = lerp(self.start[0], self.end[0], t);
        let y = lerp(self.start[1], self.end[1], t);
        Matrix { m00: ONE, m01: y, m02: 0, m10: x, m11: ONE, m12: 0, m20: 0, m21: 0, m22: ONE }
    }
}

impl Transformation {
    pub open spec fn spec_apply(self, t: int) -> Matrix {
        match self {
            Transformation::Rotate(o) => o.spec_apply(t),
            Transformation::Translate(o) => o.spec_apply(t),
            Transformation::Scale(o) => o.spec_apply(t),
            Transformation::Shear(o) => o.spec_apply(t),
        }
    }

    /// The matrix built from the start values alone.
    pub open spec fn start_matrix(self) -> Matrix {
        match self {
            Transformation::Rotate(o) => rotation_matrix(o.start_angle as int),
            Transformation::Translate(o) => translation_matrix(o.start[0] as int, o.start[1] as int),
            Transformation::Scale(o) => scale_matrix(o.start[0] as int, o.start[1] as int),
            Transformation::Shear(o) => shear_matrix(o.start[0] as int, o.start[1] as int),
        }
    }

    /// The matrix built from the end values alone.
    pub open spec fn end_matrix(self) -> Matrix {
        match self {
            Transformation::Rotate(o) => rotation_matrix(o.end_angle as int),
            Transformation::Translate(o) => translation_matrix(o.end[0] as int, o.end[1] as int),
            Transformation::Scale(o) => scale_matrix(o.end[0] as int, o.end[1] as int),
            Transformation::Shear(o) => shear_matrix(o.end[0] as int, o.end[1] as int),
        }
    }

    /// The operation's matrix at progress `t`.
    pub fn apply(&self, t: i64) -> (r: Matrix)
        requires
            0 <= t <= ONE,
        ensures
            r == self.spec_apply(t as int),
    {
        match self {
            Transformation::Rotate(o) => o.apply(t),
            Transformation::Translate(o) => o.apply(t),
            Transformation::Scale(o) => o.apply(t),
            Transformation::Shear(o) => o.apply(t),
        }
    }
}

/// Fold of the operations at progress `t`, seeded with the identity and
/// right-multiplying in list order; `None` once a product leaves the `i64` range.
pub open spec fn compose_spec(ops: Seq<Transformation>, t: int) -> Option<Matrix>
    decreases ops.len(),
{
    if ops.len() == 0 {
        Some(Matrix::spec_identity())
    } else {
        match compose_spec(ops.drop_last(), t) {
            Some(acc) => Matrix::spec_mul(acc, ops.last().spec_apply(t)),
            None => None,
        }
    }
}

/// Progress held to `[0, ONE]`.
pub open spec fn clamp_progress(t: int) -> int {
    if t < 0 { 0 } else if t > ONE { ONE as int } else { t }
}

/// Composes the operations at progress `progress`, held to `[0, ONE]`:
/// `I * op0(t) * op1(t) * ...`. No operation gives the identity.
pub fn apply(ops: &[Transformation], progress: i64) -> (r: Option<Matrix>)
    ensures
        r == compose_spec(ops@, clamp_progress(progress as int)),
        ops@.len() == 0 ==> r == Some(Matrix::spec_identity()),
{
    let t = if progress < 0 { 0 } else if progress > ONE { ONE } else { progress };
    let mut acc = Some(Matrix::identity());
    let mut i: usize = 0;
    while i < ops.len()
        invariant
            0 <= t <= ONE,
            i <= ops.len(),
            acc == compose_spec(ops@.subrange(0, i as int), t as int),
        decreases ops.len() - i,
    {
        let m = ops[i].apply(t);
        proof {
            assert(ops@.subrange(0, i + 1).drop_last() =~= ops@.subrange(0, i as int));
        }
        acc = match acc {
            Some(a) => a.mul(&m),
            None => None,
        };
        i = i + 1;
    }
    proof {
        assert(ops@.subrange(0, ops.len() as int) =~= ops@);
    }
    acc
}

/// At progress 0 an operation's matrix is the one built from its start values,
/// and at progress 1 the one built from its end values.
pub proof fn lemma_apply_endpoints(op: Transformation)
    ensures
        op.spec_apply(0) == op.start_matrix(),
        op.spec_apply(ONE as int) == op.end_matrix(),
{
    match op {
        Transformation::Rotate(o) => {
            lemma_lerp_bounds(o.start_angle as int, o.end_angle as int, 0);
        },
        Transformation::Translate(o) => {
            lemma_lerp_bounds(o.start[0] as int, o.end[0] as int, 0);
            lemma_lerp_bounds(o.start[1] as int, o.end[1] as int, 0);
        },
        Transformation::Scale(o) => {
            lemma_lerp_bounds(o.start[0] as int, o.end[0] as int, 0);
            lemma_lerp_bounds(o.start[1] as int, o.end[1] as int, 0);
        },
        Transformation::Shear(o) => {
            lemma_lerp_bounds(o.start[0] as int, o.end[0] as int, 0);
            lemma_lerp_bounds(o.start[1] as int, o.end[1] as int, 0);
        },
    }
}

/// Composing no operation gives the identity; composing one gives that
/// operation's own matrix.
pub proof fn lemma_compose_empty_and_single(op: Transformation, t: int)
    ensures
        compose_spec(Seq::empty(), t) == Some(Matrix::spec_identity()),
        compose_spec(seq![op], t) == Some(op.spec_apply(t)),
{
    assert(seq![op].drop_last() =~= Seq::<Transformation>::empty());
    lemma_identity_mul(op.spec_apply(t));
}

} // verus!
