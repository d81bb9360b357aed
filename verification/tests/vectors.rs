use linalg::errors::VectorErr;
use linalg::vectors::{Vector2D, Vector3D, Vector4D};

#[test]
fn vec_from_slice_ok() {
    let slice2d = [1, 2];
    let slice3d = [3, 4, 5];
    let slice4d = [6, 7, 8, 9];

    let v2d = Vector2D::from_slice(&slice2d).unwrap();
    let v3d = Vector3D::from_slice(&slice3d).unwrap();
    let v4d = Vector4D::from_slice(&slice4d).unwrap();

    assert_eq!((v2d.x, v2d.y), (1, 2));
    assert_eq!((v3d.x, v3d.y, v3d.z), (3, 4, 5));
    assert_eq!((v4d.x, v4d.y, v4d.z, v4d.w), (6, 7, 8, 9));
}

#[test]
fn vec_from_slice_err() {
    let slice2 = [1, 2];
    let slice3 = [3, 4, 5];

    let v2dr = Vector2D::from_slice(&slice3);
    let v3dr = Vector3D::from_slice(&slice2);
    let v4dr = Vector4D::from_slice(&slice2);

    assert!(v2dr.is_err());
    assert!(v3dr.is_err());
    assert!(v4dr.is_err());
}

#[test]
fn vec_from_vec_ok() {
    let vec2d = vec![1, 2];
    let vec3d = vec![3, 4, 5];
    let vec4d = vec![6, 7, 8, 9];

    let v2d = Vector2D::from_vec(&vec2d).unwrap();
    let v3d = Vector3D::from_vec(&vec3d).unwrap();
    let v4d = Vector4D::from_vec(&vec4d).unwrap();

    assert_eq!((v2d.x, v2d.y), (1, 2));
    assert_eq!((v3d.x, v3d.y, v3d.z), (3, 4, 5));
    assert_eq!((v4d.x, v4d.y, v4d.z, v4d.w), (6, 7, 8, 9));
}

#[test]
fn vec_from_vec_err() {
    let vec2 = vec![1, 2];
    let vec3 = vec![3, 4, 5];

    let v2dr = Vector2D::from_vec(&vec3);
    let v3dr = Vector3D::from_vec(&vec2);
    let v4dr = Vector4D::from_vec(&vec2);

    assert!(v2dr.is_err());
    assert!(v3dr.is_err());
    assert!(v4dr.is_err());
}

#[test]
fn vec_invert() {
    let v2d = Vector2D::new(5, -2);
    let v2dr = Vector2D::new(-5, 2);

    let v3d = Vector3D::new(5, -2, 4);
    let v3dr = Vector3D::new(-5, 2, -4);

    let v4d = Vector4D::new(5, -2, 4, 900);
    let v4dr = Vector4D::new(-5, 2, -4, -900);

    assert_eq!(v2d.invert(), v2dr);
    assert_eq!(v3d.invert(), v3dr);
    assert_eq!(v4d.invert(), v4dr);
}

#[test]
fn vec_sub() {
    let v2d1 = Vector2D::new(2, 4);
    let v2d2 = Vector2D::new(-7, 2);
    let v2dr = Vector2D::new(9, 2);

    let v3d1 = Vector3D::new(2, 4, 5);
    let v3d2 = Vector3D::new(-7, 2, 0);
    let v3dr = Vector3D::new(9, 2, 5);

    let v4d1 = Vector4D::new(2, 4, 5, 0);
    let v4d2 = Vector4D::new(-7, 2, 0, -15);
    let v4dr = Vector4D::new(9, 2, 5, 15);

    assert_eq!(v2d1.sub(&v2d2), v2dr);
    assert_eq!(v3d1.sub(&v3d2), v3dr);
    assert_eq!(v4d1.sub(&v4d2), v4dr);
}

#[test]
fn vec_dot() {
    let v2d1 = Vector2D::new(2, 1);
    let v2d2 = Vector2D::new(-7, 2);
    let v2dr = -12;

    let v3d1 = Vector3D::new(2, 1, 5);
    let v3d2 = Vector3D::new(-7, 2, 5);
    let v3dr = 13;

    let v4d1 = Vector4D::new(2, 1, 5, -2);
    let v4d2 = Vector4D::new(-7, 2, 5, 6);
    let v4dr = 1;

    assert_eq!(v2d1.dot(&v2d2), v2dr);
    assert_eq!(v3d1.dot(&v3d2), v3dr);
    assert_eq!(v4d1.dot(&v4d2), v4dr);
}

#[test]
fn vec_scale() {
    let factor = 2;

    let v2d = Vector2D::new(2, 4);
    let v2dr = Vector2D::new(4, 8);

    let v3d = Vector3D::new(2, 4, 0);
    let v3dr = Vector3D::new(4, 8, 0);

    let v4d = Vector4D::new(2, 4, 0, -3);
    let v4dr = Vector4D::new(4, 8, 0, -6);

    assert_eq!(v2d.scale(factor), v2dr);
    assert_eq!(v3d.scale(factor), v3dr);
    assert_eq!(v4d.scale(factor), v4dr);
}

#[test]
fn vec_cross() {
    let v3_1 = Vector3D::new(1, 2, 3);
    let v3_2 = Vector3D::new(2, 1, -2);
    let v3r = Vector3D::new(-7, 8, -3);

    assert_eq!(v3_1.cross(&v3_2), v3r);
}

#[test]
fn vec_zero_exact() {
    let vec2d = Vector2D::<i32>::zero();
    assert_eq!((vec2d.x, vec2d.y), (0, 0));

    let vec3d = Vector3D::<i32>::zero();
    assert_eq!((vec3d.x, vec3d.y, vec3d.z), (0, 0, 0));

    let vec4d = Vector4D::<i32>::zero();
    assert_eq!((vec4d.x, vec4d.y, vec4d.z, vec4d.w), (0, 0, 0, 0));
}

#[test]
fn vec_zero_dot_zero() {
    // The self-dot-product of the zero vector is zero in every dimension,
    // so its magnitude, the square root of that dot product, is zero too.
    assert_eq!(Vector2D::<i64>::zero().dot(&Vector2D::zero()), 0);
    assert_eq!(Vector3D::<i64>::zero().dot(&Vector3D::zero()), 0);
    assert_eq!(Vector4D::<i64>::zero().dot(&Vector4D::zero()), 0);
    assert_eq!((Vector2D::<i64>::zero().dot(&Vector2D::zero()) as f64).sqrt(), 0.0);
}

#[test]
fn vec_add_exact() {
    let v2d1 = Vector2D::new(2, 4);
    let v2d2 = Vector2D::new(-7, 2);
    let v2dr = Vector2D::new(-5, 6);

    let v3d1 = Vector3D::new(2, 4, 5);
    let v3d2 = Vector3D::new(-7, 2, 1);
    let v3dr = Vector3D::new(-5, 6, 6);

    let v4d1 = Vector4D::new(2, 4, 5, 0);
    let v4d2 = Vector4D::new(-7, 2, 1, -15);
    let v4dr = Vector4D::new(-5, 6, 6, -15);

    assert_eq!(v2d1.add(&v2d2), v2dr);
    assert_eq!(v3d1.add(&v3d2), v3dr);
    assert_eq!(v4d1.add(&v4d2), v4dr);
}

#[test]
fn vec_add_sub_round_trip() {
    let v = Vector3D::new(12, -7, 30);
    let w = Vector3D::new(-4, 19, 6);
    assert_eq!(v.add(&w).sub(&w), v);

    let v2 = Vector2D::new(8, -1);
    let w2 = Vector2D::new(5, 5);
    assert_eq!(v2.add(&w2).sub(&w2), v2);

    let v4 = Vector4D::new(1, 2, 3, 4);
    let w4 = Vector4D::new(-9, 0, 2, 7);
    assert_eq!(v4.add(&w4).sub(&w4), v4);
}

#[test]
fn vec_invert_involution() {
    let v2 = Vector2D::new(5, -2);
    let v3 = Vector3D::new(5, -2, 4);
    let v4 = Vector4D::new(5, -2, 4, 900);

    assert_eq!(v2.invert().invert(), v2);
    assert_eq!(v3.invert().invert(), v3);
    assert_eq!(v4.invert().invert(), v4);
}

#[test]
fn vec_dot_commutes() {
    let v2 = Vector2D::new(2, 1);
    let w2 = Vector2D::new(-7, 2);
    assert_eq!(v2.dot(&w2), w2.dot(&v2));

    let v3 = Vector3D::new(2, 1, 5);
    let w3 = Vector3D::new(-7, 2, 5);
    assert_eq!(v3.dot(&w3), w3.dot(&v3));

    let v4 = Vector4D::new(2, 1, 5, -2);
    let w4 = Vector4D::new(-7, 2, 5, 6);
    assert_eq!(v4.dot(&w4), w4.dot(&v4));
}

#[test]
fn vec_max_abs() {
    // The divisor of the max-abs normalization convention: (5, -2)
    // normalizes by 5, so the normalized vector is (1, -0.4).
    assert_eq!(Vector2D::new(5, -2).max_abs(), 5);
    assert_eq!(Vector3D::new(5, -2, 4).max_abs(), 5);
    assert_eq!(Vector4D::new(5, -2, 4, -9).max_abs(), 9);
    assert_eq!(Vector2D::new(0, 0).max_abs(), 0);
}

#[test]
fn vec_precision_eq_exact() {
    let v2_1 = Vector2D::new(100, 0);
    let v2_2 = Vector2D::new(105, 0);
    assert!(v2_1.precision_eq(&v2_2, 10));
    assert!(!v2_1.precision_eq(&v2_2, 1));

    let v3_1 = Vector3D::new(100, 0, 0);
    let v3_2 = Vector3D::new(105, 0, 0);
    assert!(v3_1.precision_eq(&v3_2, 10));
    assert!(!v3_1.precision_eq(&v3_2, 1));

    let v4_1 = Vector4D::new(100, 0, 0, 50);
    let v4_2 = Vector4D::new(105, 0, 0, 49);
    assert!(v4_1.precision_eq(&v4_2, 10));
    assert!(!v4_1.precision_eq(&v4_2, 1));
}

#[test]
fn vec_from_slice_err_fields() {
    let too_long = [1, 2, 3];
    match Vector2D::from_slice(&too_long) {
        Err(VectorErr::LengthErr { expected, got }) => {
            assert_eq!(expected, 2);
            assert_eq!(got, 3);
        }
        Ok(_) => panic!("a three-element input must not build a two-component vector"),
    }

    let empty: [i32; 0] = [];
    match Vector3D::from_slice(&empty) {
        Err(VectorErr::LengthErr { expected, got }) => {
            assert_eq!(expected, 3);
            assert_eq!(got, 0);
        }
        Ok(_) => panic!("an empty input must not build a three-component vector"),
    }

    match Vector4D::from_vec(&vec![1, 2, 3]) {
        Err(VectorErr::LengthErr { expected, got }) => {
            assert_eq!(expected, 4);
            assert_eq!(got, 3);
        }
        Ok(_) => panic!("a three-element input must not build a four-component vector"),
    }
}
