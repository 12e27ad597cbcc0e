use blazen::linalg::{Matrix, Vector, ONE};
use blazen::transform::{apply, cos, lerp, sin, Rotate, Scale, Shear, Transformation, Translate};

fn mat(rows: [[i64; 3]; 3]) -> Matrix {
    Matrix {
        m00: rows[0][0],
        m01: rows[0][1],
        m02: rows[0][2],
        m10: rows[1][0],
        m11: rows[1][1],
        m12: rows[1][2],
        m20: rows[2][0],
        m21: rows[2][1],
        m22: rows[2][2],
    }
}

#[test]
fn identity_is_unit_of_mul() {
    let m = mat([[2 * ONE, 3, -4], [5, ONE / 2, 7], [10 * ONE, -20 * ONE, ONE]]);
    assert_eq!(Matrix::identity().mul(&m), Some(m));
    assert_eq!(m.mul(&Matrix::identity()), Some(m));
}

#[test]
fn mul_of_scale_and_translation() {
    let s = mat([[2 * ONE, 0, 0], [0, 3 * ONE, 0], [0, 0, ONE]]);
    let t = mat([[ONE, 0, 0], [0, ONE, 0], [5 * ONE, 7 * ONE, ONE]]);
    let expected = mat([[2 * ONE, 0, 0], [0, 3 * ONE, 0], [5 * ONE, 7 * ONE, ONE]]);
    assert_eq!(s.mul(&t), Some(expected));
}

#[test]
fn mul_floors_fractional_products() {
    // Half times three units is one and a half units: floored to one, and to minus two when negative.
    let a = mat([[ONE / 2, 0, 0], [0, ONE, 0], [0, 0, ONE]]);
    let b = mat([[3, 0, 0], [0, ONE, 0], [0, 0, ONE]]);
    assert_eq!(a.mul(&b).unwrap().m00, 1);
    let neg = mat([[-3, 0, 0], [0, ONE, 0], [0, 0, ONE]]);
    assert_eq!(a.mul(&neg).unwrap().m00, -2);
}

#[test]
fn mul_overflow_is_none() {
    let big = mat([[i64::MAX, 0, 0], [0, ONE, 0], [0, 0, ONE]]);
    assert_eq!(big.mul(&big), None);
}

#[test]
fn vector_apply_translates_points() {
    let t = mat([[ONE, 0, 0], [0, ONE, 0], [5 * ONE, -7 * ONE, ONE]]);
    let p = Vector { x: 2 * ONE, y: 3 * ONE, w: ONE };
    assert_eq!(p.apply(&t), Some(Vector { x: 7 * ONE, y: -4 * ONE, w: ONE }));
}

#[test]
fn lerp_values() {
    assert_eq!(lerp(10, 20, 0), 10);
    assert_eq!(lerp(10, 20, ONE), 20);
    assert_eq!(lerp(0, 100 * ONE, ONE / 2), 50 * ONE);
    assert_eq!(lerp(5 * ONE, 0, ONE / 4), 5 * ONE - 5 * ONE / 4);
}

#[test]
fn sine_values() {
    assert_eq!(sin(0), 0);
    assert_eq!(sin(90 * ONE), ONE);
    assert_eq!(sin(-90 * ONE), -ONE);
    assert_eq!(sin(180 * ONE), 0);
    assert_eq!(sin(30 * ONE), ONE / 2);
    assert_eq!(sin(150 * ONE), ONE / 2);
    // 4·135·45 / (40500 − 135·45) = 24300 / 34425, about 0.70588.
    assert_eq!(sin(135 * ONE), 24300 * ONE / 34425);
    assert_eq!(sin(45 * ONE), 24300 * ONE / 34425);
    assert_eq!(cos(0), ONE);
    assert_eq!(cos(135 * ONE), -(24300 * ONE / 34425));
    // Angles wrap around a full turn.
    assert_eq!(sin(450 * ONE), ONE);
    assert_eq!(sin(-330 * ONE), ONE / 2);
}

#[test]
fn sine_is_odd_and_close() {
    for a in [1i64, 7, ONE, 45 * ONE, 100 * ONE + 3, 179 * ONE, 180 * ONE, 200 * ONE, 1000 * ONE + 17] {
        assert_eq!(sin(-a), -sin(a), "angle {}", a);
    }
    for deg in 0..360i64 {
        let exact = ((deg as f64).to_radians().sin() * ONE as f64) as i64;
        assert!((sin(deg * ONE) - exact).abs() <= ONE / 500, "angle {}", deg);
    }
}

#[test]
fn endpoints_give_start_and_end_matrices() {
    let op = Transformation::Translate(Translate::new([ONE, 2 * ONE], [-3 * ONE, 4 * ONE]));
    assert_eq!(op.apply(0), mat([[ONE, 0, 0], [0, ONE, 0], [ONE, 2 * ONE, ONE]]));
    assert_eq!(op.apply(ONE), mat([[ONE, 0, 0], [0, ONE, 0], [-3 * ONE, 4 * ONE, ONE]]));
    let sc = Transformation::Scale(Scale::new([2 * ONE, 3 * ONE], [ONE, ONE]));
    assert_eq!(sc.apply(0), mat([[2 * ONE, 0, 0], [0, 3 * ONE, 0], [0, 0, ONE]]));
    assert_eq!(sc.apply(ONE), Matrix::identity());
    let sh = Transformation::Shear(Shear::new([0, 0], [ONE / 2, ONE / 4]));
    assert_eq!(sh.apply(ONE), mat([[ONE, ONE / 4, 0], [ONE / 2, ONE, 0], [0, 0, ONE]]));
    let rot = Transformation::Rotate(Rotate::new(0, 90 * ONE));
    assert_eq!(rot.apply(0), Matrix::identity());
    assert_eq!(rot.apply(ONE), mat([[0, -ONE, 0], [ONE, 0, 0], [0, 0, ONE]]));
}

#[test]
fn compose_empty_and_single() {
    assert_eq!(apply(&[], ONE / 3), Some(Matrix::identity()));
    let op = Transformation::Scale(Scale::new([ONE, ONE], [3 * ONE, 5 * ONE]));
    assert_eq!(apply(&[op], ONE / 2), Some(op.apply(ONE / 2)));
}

#[test]
fn compose_applies_in_list_order() {
    let s = Transformation::Scale(Scale::new([2 * ONE, 2 * ONE], [2 * ONE, 2 * ONE]));
    let t = Transformation::Translate(Translate::new([10 * ONE, 0], [10 * ONE, 0]));
    let st = apply(&[s, t], 0).unwrap();
    let ts = apply(&[t, s], 0).unwrap();
    let p = Vector { x: ONE, y: ONE, w: ONE };
    // Scale first, then translate: (2, 2) + (10, 0).
    assert_eq!(p.apply(&st), Some(Vector { x: 12 * ONE, y: 2 * ONE, w: ONE }));
    // Translate first, then scale: (11, 1) * 2.
    assert_eq!(p.apply(&ts), Some(Vector { x: 22 * ONE, y: 2 * ONE, w: ONE }));
}
