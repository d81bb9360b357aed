use linalg::matrices::{Matrix3x3, Matrix4x4};
use linalg::vectors::{Vector3D, Vector4D};

#[test]
fn mat_zero() {
    let m3 = Matrix3x3::new([[0; 3]; 3]);
    let m4 = Matrix3x3::new([[0; 3]; 3]);

    assert_eq!(m3, Matrix3x3::<i32>::zero());
    assert_eq!(m4, Matrix3x3::<i32>::zero());
}

#[test]
fn mat_dimensions() {
    assert_eq!(Matrix3x3::<i32>::zero().dimensions(), (3, 3));
    assert_eq!(Matrix4x4::<i32>::zero().dimensions(), (4, 4));
}

#[test]
fn mat_identity() {
    let m3 = Matrix3x3::new([[1, 0, 0], [0, 1, 0], [0, 0, 1]]);
    let m4 = Matrix4x4::new([[1, 0, 0, 0], [0, 1, 0, 0], [0, 0, 1, 0], [0, 0, 0, 1]]);

    assert_eq!(Matrix3x3::<i32>::identity(), m3);
    assert_eq!(Matrix4x4::<i32>::identity(), m4);
}

#[test]
fn mat_from_func() {
    let m3 = Matrix3x3::from_func(|i, j| (i * 3 + j) as i32);
    let m3e = Matrix3x3::new([[0, 1, 2], [3, 4, 5], [6, 7, 8]]);

    let m4 = Matrix4x4::from_func(|i, j| (i * 4 + j) as i32);
    let m4e = Matrix4x4::new([[0, 1, 2, 3], [4, 5, 6, 7], [8, 9, 10, 11], [12, 13, 14, 15]]);

    assert_eq!(m3, m3e);
    assert_eq!(m4, m4e);
}

#[test]
fn mat_get_val() {
    let m3 = Matrix3x3::new([[5, 2, 6], [7, 9, -1], [2, 5, 1]]);
    let m4 = Matrix4x4::new([[0, 2, -1, 4], [7, 3, 4, 10], [5, 1, -3, -2], [-4, 1, 9, -9]]);

    assert_eq!(m3.get_val(0, 0), 5);
    assert_eq!(m3.get_val(1, 1), 9);
    assert_eq!(m3.get_val(2, 2), 1);
    assert_eq!(m4.get_val(2, 3), -2);
    assert_eq!(m4.get_val(0, 0), 0);
    assert_eq!(m4.get_val(3, 1), 1);
}

#[test]
fn mat_determinant() {
    assert_eq!(Matrix3x3::<i32>::identity().determinant(), 1);
    assert_eq!(Matrix4x4::<i32>::identity().determinant(), 1);

    let m3 = Matrix3x3::new([[2, -3, 1], [2, 0, -1], [1, 4, 5]]);
    let m3_det = 49;

    let m4 = Matrix4x4::new([[1, 3, 1, 4], [3, 9, 5, 15], [0, 2, 1, 1], [0, 4, 2, 3]]);
    let m4_det = -4;

    assert_eq!(m3.determinant(), m3_det);
    assert_eq!(m4.determinant(), m4_det);
}

#[test]
fn mat_minor() {
    let m3 = Matrix3x3::new([[2, -3, 1], [2, 0, -1], [1, 4, 5]]);
    assert_eq!(m3.minor(0, 0), 4);
    assert_eq!(m3.minor(1, 0), -19);
    assert_eq!(m3.minor(2, 1), -4);

    let m4 = Matrix4x4::new([[1, 2, -3, 1], [7, 2, 0, -1], [-5, 1, 4, 5], [10, 2, -4, 2]]);
    assert_eq!(m4.minor(3, 0), 49);
}

#[test]
fn mat_transposed() {
    assert_eq!(Matrix3x3::<i32>::identity().transposed(), Matrix3x3::<i32>::identity());
    assert_eq!(Matrix4x4::<i32>::identity().transposed(), Matrix4x4::<i32>::identity());

    let m3 = Matrix3x3::new([[2, -3, 1], [2, 0, -1], [1, 4, 5]]);
    let m3e = Matrix3x3::new([[2, 2, 1], [-3, 0, 4], [1, -1, 5]]);

    let m4 = Matrix4x4::new([[1, 2, -3, 1], [7, 2, 0, -1], [-5, 1, 4, 5], [10, 2, -4, 2]]);
    let m4e = Matrix4x4::new([[1, 7, -5, 10], [2, 2, 1, 2], [-3, 0, 4, -4], [1, -1, 5, 2]]);

    assert_eq!(m3.transposed(), m3e);
    assert_eq!(m4.transposed(), m4e);
}

#[test]
fn mat_add() {
    let m3_1 = Matrix3x3::new([[1, 2, 3], [3, 2, 1], [8, 0, -5]]);
    let m3_2 = Matrix3x3::new([[0, 2, 1], [1, 2, 3], [-5, 4, 8]]);
    let m3r = Matrix3x3::new([[1, 4, 4], [4, 4, 4], [3, 4, 3]]);

    let m4_1 = Matrix4x4::new([[0, 1, 2, 3], [4, 5, 6, 0], [1, 2, 3, 4], [5, 0, 1, 2]]);
    let m4_2 = Matrix4x4::new([[9, 8, 7, 6], [5, 4, 3, 2], [1, 0, -1, -2], [-3, -4, -5, -6]]);
    let m4r = Matrix4x4::new([[9, 9, 9, 9], [9, 9, 9, 2], [2, 2, 2, 2], [2, -4, -4, -4]]);

    assert_eq!(m3_1.add(&m3_2), m3r);
    assert_eq!(m4_1.add(&m4_2), m4r);
}

#[test]
fn mat_sub() {
    let m3_1 = Matrix3x3::new([[1, 2, 3], [3, 2, 1], [8, 0, -5]]);
    let m3_2 = Matrix3x3::new([[0, 2, 1], [1, 2, 3], [-5, 4, 8]]);
    let m3r = Matrix3x3::new([[1, 0, 2], [2, 0, -2], [13, -4, -13]]);

    let m4_1 = Matrix4x4::new([[0, 1, 2, 3], [4, 5, 6, 0], [1, 2, 3, 4], [5, 0, 1, 2]]);
    let m4_2 = Matrix4x4::new([[9, 8, 7, 6], [5, 4, 3, 2], [1, 0, -1, -2], [-3, -4, -5, -6]]);
    let m4r = Matrix4x4::new([[-9, -7, -5, -3], [-1, 1, 3, -2], [0, 2, 4, 6], [8, 4, 6, 8]]);

    assert_eq!(m3_1.sub(&m3_2), m3r);
    assert_eq!(m4_1.sub(&m4_2), m4r);
}

#[test]
fn mat_cross() {
    let m3_1 = Matrix3x3::new([[1, 2, 3], [3, 2, 1], [8, 0, -5]]);
    let m3_2 = Matrix3x3::new([[0, 2, 1], [1, 2, 3], [-5, 4, 8]]);
    let m3r = Matrix3x3::new([[-13, 18, 31], [-3, 14, 17], [25, -4, -32]]);

    let m4_1 = Matrix4x4::new([[0, 1, 2, 3], [4, 5, 6, 0], [1, 0, 3, 4], [5, 0, 1, 2]]);
    let m4_2 = Matrix4x4::new([[3, 3, 0, 3], [-2, 1, 0, 2], [1, 0, -1, -2], [-3, -4, 10, 0]]);
    let m4r = Matrix4x4::new([[-9, -11, 28, -2], [8, 17, -6, 10], [-6, -13, 37, -3], [10, 7, 19, 13]]);

    assert_eq!(m3_1.cross(&m3_2), m3r);
    assert_eq!(m4_1.cross(&m4_2), m4r);
}

#[test]
fn mat_mul_vec() {
    let m3 = Matrix3x3::new([[1, 2, 0], [-2, 5, 1], [6, 4, 0]]);
    let v3 = Vector3D::new(2, -3, 3);
    let r3 = Vector3D::new(-4, -16, 0);

    let m4 = Matrix4x4::new([[1, 0, 2, 0], [7, 1, -1, -3], [5, 0, 2, -1], [3, 3, 4, 2]]);
    let v4 = Vector4D::new(0, 1, -2, 2);
    let r4 = Vector4D::new(-4, -3, -6, -1);

    assert_eq!(m3.mul_vec(&v3), r3);
    assert_eq!(m4.mul_vec(&v4), r4);
}

#[test]
fn mat_precision_eq_exact() {
    let m3_1 = Matrix3x3::new([[10, 20, 30], [20, 80, -40], [50, 100, 20]]);
    let m3_2 = Matrix3x3::new([[10, 20, 30], [20, 81, -40], [50, 100, 20]]);
    let m4_1 = Matrix4x4::new([[10, 20, 30, 20], [20, 80, -40, 30], [50, 100, 20, 0], [80, 0, 20, 40]]);
    let m4_2 = Matrix4x4::new([[10, 20, 30, 20], [20, 83, -40, 30], [50, 100, 20, 0], [80, 0, 20, 40]]);

    assert!(m3_1.precision_eq(&m3_2, 1));
    assert!(!m3_1.precision_eq(&m3_2, 0));
    assert!(m4_1.precision_eq(&m4_2, 3));
    assert!(!m4_1.precision_eq(&m4_2, 2));
}

#[test]
fn mat_inverse_exact() {
    // The identity is its own inverse.
    let i3 = Matrix3x3::<i64>::identity();
    let i4 = Matrix4x4::<i64>::identity();
    assert_eq!(Matrix3x3::<i64>::identity().inverse().unwrap(), i3);
    assert_eq!(Matrix4x4::<i64>::identity().inverse().unwrap(), i4);

    // A matrix with determinant one has an exact integer inverse, and the
    // round trip through the matrix product restores the identity.
    let m3 = Matrix3x3::new([[1i64, 2, 3], [0, 1, 4], [0, 0, 1]]);
    let m3_inv = m3.inverse().unwrap();
    assert_eq!(m3_inv, Matrix3x3::new([[1, -2, 5], [0, 1, -4], [0, 0, 1]]));
    assert_eq!(m3.cross(&m3_inv), i3);

    let m4 = Matrix4x4::new([[1i64, 1, 0, 0], [0, 1, 1, 0], [0, 0, 1, 1], [0, 0, 0, 1]]);
    let m4_inv = m4.inverse().unwrap();
    assert_eq!(m4_inv, Matrix4x4::new([[1, -1, 1, -1], [0, 1, -1, 1], [0, 0, 1, -1], [0, 0, 0, 1]]));
    assert_eq!(m4.cross(&m4_inv), i4);
}

#[test]
fn mat_inverse_singular() {
    // A singular matrix (determinant zero) has no inverse.
    let s3 = Matrix3x3::new([[1i64, 2, 3], [2, 4, 6], [0, 0, 1]]);
    assert!(s3.inverse().is_none());

    let s4 = Matrix4x4::new([[1i64, 2, 3, 4], [1, 2, 3, 4], [0, 1, 0, 0], [0, 0, 1, 0]]);
    assert!(s4.inverse().is_none());
}

#[test]
fn mat_inverse_truncates() {
    // Over integer scalars the adjugate cells are divided with truncating
    // division: twice the identity has determinant 8 and diagonal minors 4,
    // so every cell of its "inverse" truncates to zero.
    let m = Matrix3x3::new([[2i64, 0, 0], [0, 2, 0], [0, 0, 2]]);
    assert_eq!(m.inverse().unwrap(), Matrix3x3::<i64>::zero());
}

#[test]
fn mat_transpose_involution() {
    let m3 = Matrix3x3::new([[2, -3, 1], [2, 0, -1], [1, 4, 5]]);
    assert_eq!(m3.transposed().transposed(), m3);

    let m4 = Matrix4x4::new([[1, 2, -3, 1], [7, 2, 0, -1], [-5, 1, 4, 5], [10, 2, -4, 2]]);
    assert_eq!(m4.transposed().transposed(), m4);
}

#[test]
fn mat_add_sub_round_trip() {
    let m3 = Matrix3x3::new([[1, 2, 3], [3, 2, 1], [8, 0, -5]]);
    let w3 = Matrix3x3::new([[0, 2, 1], [1, 2, 3], [-5, 4, 8]]);
    assert_eq!(m3.add(&w3).sub(&w3), m3);

    let m4 = Matrix4x4::new([[0, 1, 2, 3], [4, 5, 6, 0], [1, 2, 3, 4], [5, 0, 1, 2]]);
    let w4 = Matrix4x4::new([[9, 8, 7, 6], [5, 4, 3, 2], [1, 0, -1, -2], [-3, -4, -5, -6]]);
    assert_eq!(m4.add(&w4).sub(&w4), m4);
}
