use linalg::vector::{Vec2, Vec3, Vec4, Vector};

#[test]
fn can_create_zero_vectors() {
    let z2 = Vec2::zero();
    let z3 = Vec3::zero();
    let z4 = Vec4::zero();

    assert_eq!(z2.index(0), 0);
    assert_eq!(z2.index(1), 0);

    assert_eq!(z3.index(0), 0);
    assert_eq!(z3.index(1), 0);
    assert_eq!(z3.index(2), 0);

    assert_eq!(z4.index(0), 0);
    assert_eq!(z4.index(1), 0);
    assert_eq!(z4.index(2), 0);
    assert_eq!(z4.index(3), 0);
}

#[test]
fn can_initialize_vectors_with_values() {
    let v2 = Vec2::new(1, 2);
    let v3 = Vec3::new(4, 3, 1);
    let v4 = Vec4::new(5, 2, 1, 3);

    assert_eq!(v2.index(0), 1);
    assert_eq!(v2.index(1), 2);

    assert_eq!(v3.index(0), 4);
    assert_eq!(v3.index(1), 3);
    assert_eq!(v3.index(2), 1);

    assert_eq!(v4.index(0), 5);
    assert_eq!(v4.index(1), 2);
    assert_eq!(v4.index(2), 1);
    assert_eq!(v4.index(3), 3);
}

#[test]
fn can_add_basic_vectors() {
    let v20 = Vec2::new(1, 2);
    let v21 = Vec2::new(4, 5);

    let v30 = Vec3::new(1, 4, 5);
    let v31 = Vec3::new(4, 5, 6);

    let v40 = Vec4::new(3, 4, 1, 3);
    let v41 = Vec4::new(1, 4, 5, 1);

    let res2 = v20.add(&v21);
    let res3 = v30.add(&v31);
    let res4 = v40.add(&v41);

    assert_eq!(res2.index(0), v20.index(0) + v21.index(0));
    assert_eq!(res2.index(1), v20.index(1) + v21.index(1));

    assert_eq!(res3.index(0), v30.index(0) + v31.index(0));
    assert_eq!(res3.index(1), v30.index(1) + v31.index(1));
    assert_eq!(res3.index(2), v30.index(2) + v31.index(2));

    assert_eq!(res4.index(0), v40.index(0) + v41.index(0));
    assert_eq!(res4.index(1), v40.index(1) + v41.index(1));
    assert_eq!(res4.index(2), v40.index(2) + v41.index(2));
    assert_eq!(res4.index(3), v40.index(3) + v41.index(3));
}

#[test]
fn can_sub_v3() {
    let v0 = Vec3::new(1, 3, 4);
    let v1 = Vec3::new(3, 2, 1);

    let v2 = v0.sub(&v1);

    assert_eq!(v2.index(0), -2);
    assert_eq!(v2.index(1), 1);
    assert_eq!(v2.index(2), 3);
}

#[test]
fn can_mul_v3() {
    let v0 = Vec3::new(1, 3, 4);
    let v1 = Vec3::new(3, 2, 1);

    let v2 = v0.mul(&v1);

    assert_eq!(v2.index(0), 3);
    assert_eq!(v2.index(1), 6);
    assert_eq!(v2.index(2), 4);
}

#[test]
fn can_div_v3() {
    let v0 = Vec3::new(1, 3, 4);
    let v1 = Vec3::new(3, 2, 1);

    let v2 = v0.div(&v1);

    assert_eq!(v2.index(0), 1 / 3);
    assert_eq!(v2.index(1), 3 / 2);
    assert_eq!(v2.index(2), 4 / 1);
}

#[test]
fn zero_vectors_report_is_zero() {
    assert!(Vec2::zero().is_zero());
    assert!(Vec3::zero().is_zero());
    assert!(Vec4::zero().is_zero());
    assert!(Vector::<7>::zero().is_zero());

    assert!(!Vec2::new(0, 1).is_zero());
    assert!(!Vec3::new(-1, 0, 0).is_zero());
}

#[test]
fn elementwise_ops_match_scalar_ops() {
    let a = Vec4::new(12, -8, 7, 0);
    let b = Vec4::new(3, 2, -2, 5);

    let sum = a.add(&b);
    let diff = a.sub(&b);
    let prod = a.mul(&b);
    let quot = a.div(&b);

    for i in 0..4 {
        assert_eq!(sum.index(i), a.index(i) + b.index(i));
        assert_eq!(diff.index(i), a.index(i) - b.index(i));
        assert_eq!(prod.index(i), a.index(i) * b.index(i));
        assert_eq!(quot.index(i), a.index(i) / b.index(i));
    }
}

#[test]
fn division_truncates_toward_zero() {
    let v0 = Vec4::new(-7, 7, 7, -7);
    let v1 = Vec4::new(2, 2, -2, -2);

    let q = v0.div(&v1);

    assert_eq!(q.index(0), -3);
    assert_eq!(q.index(1), 3);
    assert_eq!(q.index(2), -3);
    assert_eq!(q.index(3), 3);
}

#[test]
fn vector_add_then_sub_returns_original() {
    let a = Vec3::new(-5, 0, 41);
    let b = Vec3::new(17, -3, 9);

    let back = a.add(&b).sub(&b);

    assert_eq!(back.index(0), a.index(0));
    assert_eq!(back.index(1), a.index(1));
    assert_eq!(back.index(2), a.index(2));
}
