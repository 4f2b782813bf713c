use linalg::matrix::{Mat2, Matrix, TMatrix};
use linalg::vector::Vec2;

#[test]
fn can_construct_mat2() {
    let m0 = Mat2::new(1, 2, 3, 4);

    assert_eq!(m0.index((0, 0)), 1);
    assert_eq!(m0.index((0, 1)), 2);
    assert_eq!(m0.index((1, 0)), 3);
    assert_eq!(m0.index((1, 1)), 4);
}

#[test]
fn can_construct_mat2_from_array() {
    let m0 = Mat2::from_array(&[1, 2, 3, 4]);

    assert_eq!(m0.index((0, 0)), 1);
    assert_eq!(m0.index((0, 1)), 2);
    assert_eq!(m0.index((1, 0)), 3);
    assert_eq!(m0.index((1, 1)), 4);
}

#[test]
fn can_multiply_vec2_by_mat2() {
    let m0 = Mat2::new(1, 2, 3, 4);
    let v0 = Vec2::new(5, 6);

    let v1 = m0.mul_vector(&v0);

    assert_eq!(v1.index(0), 17);
    assert_eq!(v1.index(1), 39);
}

#[test]
fn can_multiply_vec2_by_mat32() {
    let m0 = Matrix::<3, 2>::from_array(&[1, 2, 3, 4, 5, 6]);
    let v0 = Vec2::new(7, 8);

    let v1 = m0.mul_vector(&v0);

    assert_eq!(v1.index(0), 7 + 16);
    assert_eq!(v1.index(1), 21 + 32);
    assert_eq!(v1.index(2), 35 + 48);
}

#[test]
fn can_multiply_mat2_by_mat2() {
    let m0 = Mat2::new(1, 2, 3, 4);
    let m1 = Mat2::new(5, 6, 7, 8);

    let m2 = m0.mul_matrix(&m1);

    assert_eq!(m2.index((0, 0)), 5 + 14);
    assert_eq!(m2.index((0, 1)), 6 + 16);
    assert_eq!(m2.index((1, 0)), 15 + 28);
    assert_eq!(m2.index((1, 1)), 18 + 32);
}

#[test]
fn can_multiply_mat23_by_mat32() {
    let m0 = Matrix::<2, 3>::from_array(&[1, 2, 3, 4, 5, 6]);
    let m1 = Matrix::<3, 2>::from_array(&[7, 8, 9, 10, 11, 12]);

    let m2 = m0.mul_matrix(&m1);

    assert_eq!(m2.index((0, 0)), 7 + 18 + 33);
    assert_eq!(m2.index((0, 1)), 8 + 20 + 36);
    assert_eq!(m2.index((1, 0)), 28 + 45 + 66);
    assert_eq!(m2.index((1, 1)), 32 + 50 + 72);
}

#[test]
fn can_construct_mat3() {
    let m = Matrix::<3, 3>::new(1, 2, 3, 4, 5, 6, 7, 8, 9);

    for i in 0..3usize {
        for j in 0..3usize {
            assert_eq!(m.index((i, j)), (i * 3 + j) as i64 + 1);
        }
    }
}

#[test]
fn can_construct_mat4() {
    let m = Matrix::<4, 4>::new(1, 2, 3, 4, 5, 6, 7, 8, 9, 10, 11, 12, 13, 14, 15, 16);

    for i in 0..4usize {
        for j in 0..4usize {
            assert_eq!(m.index((i, j)), (i * 4 + j) as i64 + 1);
        }
    }
}

#[test]
fn from_array_places_row_major_values() {
    let m = Matrix::<2, 3>::from_array(&[10, 20, 30, 40, 50, 60]);

    for i in 0..2usize {
        for j in 0..3usize {
            assert_eq!(m.index((i, j)), ((i * 3 + j) as i64 + 1) * 10);
        }
    }
}

#[test]
fn matrix_add_and_sub_are_elementwise() {
    let a = Mat2::new(1, -2, 3, -4);
    let b = Mat2::new(10, 20, -30, 40);

    let sum = a.add(&b);
    let diff = a.sub(&b);

    for i in 0..2usize {
        for j in 0..2usize {
            assert_eq!(sum.index((i, j)), a.index((i, j)) + b.index((i, j)));
            assert_eq!(diff.index((i, j)), a.index((i, j)) - b.index((i, j)));
        }
    }
}

#[test]
fn matrix_add_then_sub_returns_original() {
    let a = Matrix::<2, 3>::from_array(&[1, -2, 3, -4, 5, -6]);
    let b = Matrix::<2, 3>::from_array(&[7, 8, -9, 10, -11, 12]);

    let back = a.add(&b).sub(&b);

    for i in 0..2usize {
        for j in 0..3usize {
            assert_eq!(back.index((i, j)), a.index((i, j)));
        }
    }
}

#[test]
fn identity_leaves_vector_unchanged() {
    let id = Mat2::new(1, 0, 0, 1);
    let v = Vec2::new(-12, 34);

    let w = id.mul_vector(&v);

    assert_eq!(w.index(0), -12);
    assert_eq!(w.index(1), 34);
}

#[test]
fn nonsquare_product_matches_textbook_product() {
    let a = TMatrix::<i64, 2, 3>::from_array(&[1, 2, 3, 4, 5, 6]);
    let b = TMatrix::<i64, 3, 2>::from_array(&[1, 4, 2, 5, 3, 6]);

    let c = a.mul_matrix(&b);

    assert_eq!(c.index((0, 0)), 1 * 1 + 2 * 2 + 3 * 3);
    assert_eq!(c.index((0, 1)), 1 * 4 + 2 * 5 + 3 * 6);
    assert_eq!(c.index((1, 0)), 4 * 1 + 5 * 2 + 6 * 3);
    assert_eq!(c.index((1, 1)), 4 * 4 + 5 * 5 + 6 * 6);
}
