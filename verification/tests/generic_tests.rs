use linalg::matrix::TMatrix;
use linalg::vector::TVector;

#[test]
fn vectors_work_over_unsigned_scalars() {
    let a = TVector::<u64, 3>::new(9, 8, 7);
    let b = TVector::<u64, 3>::new(2, 4, 7);

    let sum = a.add(&b);
    let diff = a.sub(&b);
    let quot = a.div(&b);

    assert_eq!(sum.index(0), 11);
    assert_eq!(sum.index(1), 12);
    assert_eq!(sum.index(2), 14);

    assert_eq!(diff.index(0), 7);
    assert_eq!(diff.index(1), 4);
    assert_eq!(diff.index(2), 0);

    assert_eq!(quot.index(0), 4);
    assert_eq!(quot.index(1), 2);
    assert_eq!(quot.index(2), 1);

    assert!(TVector::<u64, 3>::zero().is_zero());
}

#[test]
fn matrices_work_over_narrower_scalars() {
    let m = TMatrix::<i32, 2, 2>::new(1, 2, 3, 4);
    let v = TVector::<i32, 2>::new(5, 6);

    let w = m.mul_vector(&v);

    assert_eq!(w.index(0), 17);
    assert_eq!(w.index(1), 39);

    let p = m.mul_matrix(&TMatrix::<i32, 2, 2>::new(5, 6, 7, 8));

    assert_eq!(p.index((0, 0)), 19);
    assert_eq!(p.index((0, 1)), 22);
    assert_eq!(p.index((1, 0)), 43);
    assert_eq!(p.index((1, 1)), 50);
}
