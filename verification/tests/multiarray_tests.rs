//! Tests for the multi-dimensional array types and their operations.

use strelitzia::common::CoreError;
use strelitzia::fields::storage::FieldElement;
use strelitzia::multiarray::aliases::{DynMatrix, DynVector, Matrix2, Matrix3, Matrix4, Vector2, Vector3, Vector4};
use strelitzia::multiarray::linalg::{CrossProduct, Hadamard, OuterProduct, Transpose, VectorOps};
use strelitzia::multiarray::types::{DenseMultiArrayOps, MultiArrayOps};

#[test]
fn vector3_constructors_and_accessors() {
    let v = Vector3::new(1, 2, 3);
    assert_eq!(v.x(), 1);
    assert_eq!(v.y(), 2);
    assert_eq!(v.z(), 3);
    assert_eq!(v.dim(), 3);
    assert_eq!(v.get(2), 3);

    let z = Vector3::zeros();
    assert_eq!(z.x(), 0);
    assert_eq!(z.y(), 0);
    assert_eq!(z.z(), 0);

    let s = Vector3::from_slice(&[7, 8, 9]);
    assert_eq!(s.get(0), 7);
    assert_eq!(s.get(1), 8);
    assert_eq!(s.get(2), 9);
}

#[test]
fn vector3_try_constructors_and_bounds() {
    assert_eq!(Vector3::try_from_slice(&[1, 2]), Err(CoreError::InsufficientData));
    let v = Vector3::try_from_slice(&[1, 2, 3]).unwrap();
    assert_eq!(v, Vector3::new(1, 2, 3));

    assert_eq!(v.try_get(3), Err(CoreError::IndexOutOfBounds));
    assert_eq!(v.try_get(1), Ok(2));
}

#[test]
fn vector3_arithmetic() {
    let a = Vector3::new(1, 2, 3);
    let b = Vector3::new(10, 20, 30);

    assert_eq!(a.add(&b), Vector3::new(11, 22, 33));
    assert_eq!(b.sub(&a), Vector3::new(9, 18, 27));
    assert_eq!(a.neg(), Vector3::new(-1, -2, -3));
    assert_eq!(a.mul_scalar(4), Vector3::new(4, 8, 12));
    assert_eq!(b.div_scalar(3), Vector3::new(3, 6, 10));
    assert_eq!(Vector3::new(-7, 7, -8).div_scalar(2), Vector3::new(-3, 3, -4));

    let mut c = a;
    c.add_assign(&b);
    assert_eq!(c, Vector3::new(11, 22, 33));
    c.sub_assign(&b);
    assert_eq!(c, a);
    c.mul_assign(5);
    assert_eq!(c, Vector3::new(5, 10, 15));
    c.div_assign(5);
    assert_eq!(c, a);
}

#[test]
fn vector3_linalg() {
    let a = Vector3::new(1, 2, 3);
    let b = Vector3::new(4, 5, 6);

    assert_eq!(a.dot(&b), 32);
    assert_eq!(a.norm_squared(), 14);

    let x = Vector3::new(1, 0, 0);
    let y = Vector3::new(0, 1, 0);
    assert_eq!(x.cross(&y), Vector3::new(0, 0, 1));
    assert_eq!(a.cross(&b), Vector3::new(-3, 6, -3));

    assert_eq!(a.hadamard(&b), Vector3::new(4, 10, 18));

    // Outer product: element (r, c) is a[r] * b[c], stored column-major.
    let m = a.outer(&b);
    for r in 0..3usize {
        for c in 0..3usize {
            assert_eq!(m.get(c * 3 + r), a.get(r) * b.get(c));
        }
    }
}

#[test]
fn matrix3_constructors_and_layout() {
    // Row-major arguments are stored column-major.
    let m = Matrix3::new(1, 2, 3, 4, 5, 6, 7, 8, 9);
    let expected = [1, 4, 7, 2, 5, 8, 3, 6, 9];
    for i in 0..9 {
        assert_eq!(m.get(i), expected[i]);
    }
    assert_eq!(m.nrows(), 3);
    assert_eq!(m.ncols(), 3);

    let id = Matrix3::identity();
    for i in 0..9 {
        assert_eq!(id.get(i), if i % 3 == i / 3 { 1 } else { 0 });
    }

    let z = Matrix3::zeros();
    for i in 0..9 {
        assert_eq!(z.get(i), 0);
    }

    let f = Matrix3::from_slice(&[1, 4, 7, 2, 5, 8, 3, 6, 9]);
    assert_eq!(f, m);

    assert_eq!(Matrix3::try_from_slice(&[1, 2, 3]), Err(CoreError::InsufficientData));
    assert_eq!(m.try_get(9), Err(CoreError::IndexOutOfBounds));
}

#[test]
fn matrix3_arithmetic() {
    let a = Matrix3::new(1, 2, 3, 4, 5, 6, 7, 8, 9);
    let b = Matrix3::identity();

    let sum = a.add(&b);
    assert_eq!(sum, Matrix3::new(2, 2, 3, 4, 6, 6, 7, 8, 10));
    assert_eq!(sum.sub(&b), a);
    assert_eq!(a.neg().get(0), -1);
    assert_eq!(a.mul_scalar(2), Matrix3::new(2, 4, 6, 8, 10, 12, 14, 16, 18));
    assert_eq!(Matrix3::new(2, 4, 6, 8, 10, 12, 14, 16, 18).div_scalar(2), a);

    assert_eq!(a.hadamard(&b), Matrix3::new(1, 0, 0, 0, 5, 0, 0, 0, 9));
    assert_eq!(a.transpose(), Matrix3::new(1, 4, 7, 2, 5, 8, 3, 6, 9));
}

#[test]
fn matrix3_multiplication() {
    let a = Matrix3::new(1, 2, 3, 4, 5, 6, 7, 8, 10);
    let id = Matrix3::identity();

    assert_eq!(id.mul(&a), a);
    assert_eq!(a.mul(&id), a);

    let b = Matrix3::new(1, 0, 2, 0, 3, 0, 4, 0, 5);
    // Row-major product computed by hand.
    let expected = Matrix3::new(13, 6, 17, 28, 15, 38, 47, 24, 64);
    assert_eq!(a.mul(&b), expected);
}

#[test]
fn identity_times_vector_is_vector() {
    // The identity matrix maps every vector to itself.
    let id = Matrix3::identity();
    let v = Vector3::new(1, 2, 3);
    assert_eq!(id.mul_vec(&v), v);

    let a = Matrix3::new(1, 2, 3, 4, 5, 6, 7, 8, 9);
    assert_eq!(a.mul_vec(&v), Vector3::new(14, 32, 50));
}

#[test]
fn multiarray_ops_trait_surface() {
    let v = Vector3::new(1, 2, 3);
    assert_eq!(v.len(), 3);
    assert_eq!(v.rank(), 1);
    assert!(!v.is_empty());
    assert_eq!(v.as_slice(), &[1, 2, 3]);

    let m = Matrix3::identity();
    assert_eq!(m.len(), 9);
    assert_eq!(m.rank(), 2);
    assert_eq!(m.as_slice().len(), 9);

    let inner = v.as_inner();
    let copy = Vector3::from_inner(*inner);
    assert_eq!(copy, v);
    let raw = copy.into_inner();
    assert_eq!(Vector3::from_inner(raw), v);
}

#[test]
fn field_element_round_trip() {
    // An aggregate built from exactly K scalars returns them by component.
    let scalars = [1, 2, 3];
    let v = Vector3::from_scalars(&scalars);
    for i in 0..3 {
        assert_eq!(v.component(i), scalars[i]);
    }
    assert_eq!(<Vector3 as FieldElement>::components(), 3);

    let nine = [1, 2, 3, 4, 5, 6, 7, 8, 9];
    let m = Matrix3::from_scalars(&nine);
    for i in 0..9 {
        assert_eq!(m.component(i), nine[i]);
    }
    assert_eq!(<Matrix3 as FieldElement>::components(), 9);
}

#[test]
fn dyn_vector_basic() {
    let z = DynVector::zeros(4);
    assert_eq!(z.dim(), 4);
    for i in 0..4 {
        assert_eq!(z.get(i), 0);
    }

    let v = DynVector::from_slice(&[5, 6, 7]);
    assert_eq!(v.dim(), 3);
    assert_eq!(v.get(1), 6);
    assert_eq!(v.try_get(3), Err(CoreError::IndexOutOfBounds));
}

#[test]
fn dyn_matrix_basic() {
    let z = DynMatrix::zeros(2, 3);
    assert_eq!(z.nrows(), 2);
    assert_eq!(z.ncols(), 3);
    for i in 0..6 {
        assert_eq!(z.get(i), 0);
    }

    // Column-major 2x3: columns (1,2), (3,4), (5,6).
    let m = DynMatrix::from_slice(&[1, 2, 3, 4, 5, 6], 2, 3);
    assert_eq!(m.get(0), 1);
    assert_eq!(m.get(5), 6);
    assert_eq!(m.try_get(6), Err(CoreError::IndexOutOfBounds));

    assert!(matches!(
        DynMatrix::try_from_slice(&[1, 2, 3], 2, 3),
        Err(CoreError::InsufficientData)
    ));
    let ok = DynMatrix::try_from_slice(&[1, 2, 3, 4, 5, 6], 2, 3).unwrap();
    assert_eq!(ok.nrows(), 2);
    assert_eq!(ok.get(3), 4);
}

#[test]
fn dyn_matrix_multiplication_checks_dimensions() {
    // 2x3 times 3x2 succeeds; mismatched inner dimensions fail.
    // a (2x3, column-major): rows (1,3,5) and (2,4,6).
    let a = DynMatrix::from_slice(&[1, 2, 3, 4, 5, 6], 2, 3);
    // b (3x2, column-major): columns (7,8,9) and (10,11,12).
    let b = DynMatrix::from_slice(&[7, 8, 9, 10, 11, 12], 3, 2);

    let p = a.try_mul(&b).unwrap();
    assert_eq!(p.nrows(), 2);
    assert_eq!(p.ncols(), 2);
    // p (2x2, column-major): [76, 100, 103, 136]
    assert_eq!(p.get(0), 1 * 7 + 3 * 8 + 5 * 9);
    assert_eq!(p.get(1), 2 * 7 + 4 * 8 + 6 * 9);
    assert_eq!(p.get(2), 1 * 10 + 3 * 11 + 5 * 12);
    assert_eq!(p.get(3), 2 * 10 + 4 * 11 + 6 * 12);

    let wrong = DynMatrix::zeros(2, 2);
    assert!(matches!(a.try_mul(&wrong), Err(CoreError::DimensionMismatch)));
}


#[test]
fn vector4_constructors_and_accessors() {
    let v = Vector4::new(1, 2, 3, 4);
    assert_eq!(v.x(), 1);
    assert_eq!(v.y(), 2);
    assert_eq!(v.z(), 3);
    assert_eq!(v.w(), 4);
    assert_eq!(v.dim(), 4);

    let z = Vector4::zeros();
    for i in 0..4 {
        assert_eq!(z.get(i), 0);
    }

    let s = Vector4::from_slice(&[5, 6, 7, 8]);
    assert_eq!(s, Vector4::new(5, 6, 7, 8));
    assert_eq!(Vector4::try_from_slice(&[1, 2, 3]), Err(CoreError::InsufficientData));
    assert_eq!(v.try_get(4), Err(CoreError::IndexOutOfBounds));
}

#[test]
fn matrix2_constructors_and_layout() {
    // Row-major arguments are stored column-major.
    let m = Matrix2::new(1, 2, 3, 4);
    let expected = [1, 3, 2, 4];
    for i in 0..4 {
        assert_eq!(m.get(i), expected[i]);
    }
    assert_eq!(m.nrows(), 2);
    assert_eq!(m.ncols(), 2);

    let id = Matrix2::identity();
    for i in 0..4 {
        assert_eq!(id.get(i), if i % 2 == i / 2 { 1 } else { 0 });
    }

    let z = Matrix2::zeros();
    for i in 0..4 {
        assert_eq!(z.get(i), 0);
    }

    assert_eq!(Matrix2::from_slice(&[1, 3, 2, 4]), m);
    assert_eq!(Matrix2::try_from_slice(&[1, 2]), Err(CoreError::InsufficientData));
    assert_eq!(m.try_get(4), Err(CoreError::IndexOutOfBounds));
}

#[test]
fn matrix4_constructors_and_layout() {
    // Row-major arguments are stored column-major.
    let m = Matrix4::new(1, 2, 3, 4, 5, 6, 7, 8, 9, 10, 11, 12, 13, 14, 15, 16);
    let expected = [1, 5, 9, 13, 2, 6, 10, 14, 3, 7, 11, 15, 4, 8, 12, 16];
    for i in 0..16 {
        assert_eq!(m.get(i), expected[i]);
    }
    assert_eq!(m.nrows(), 4);
    assert_eq!(m.ncols(), 4);

    let id = Matrix4::identity();
    for i in 0..16 {
        assert_eq!(id.get(i), if i % 4 == i / 4 { 1 } else { 0 });
    }

    let z = Matrix4::zeros();
    for i in 0..16 {
        assert_eq!(z.get(i), 0);
    }

    assert_eq!(Matrix4::from_slice(&expected), m);
    assert_eq!(Matrix4::try_from_slice(&[1, 2]), Err(CoreError::InsufficientData));
    assert_eq!(m.try_get(16), Err(CoreError::IndexOutOfBounds));
}

#[test]
fn larger_aggregates_round_trip() {
    let four = [1, 2, 3, 4];
    let v = Vector4::from_scalars(&four);
    for i in 0..4 {
        assert_eq!(v.component(i), four[i]);
    }
    assert_eq!(<Vector4 as FieldElement>::components(), 4);

    let sixteen = [1, 2, 3, 4, 5, 6, 7, 8, 9, 10, 11, 12, 13, 14, 15, 16];
    let m = Matrix4::from_scalars(&sixteen);
    for i in 0..16 {
        assert_eq!(m.component(i), sixteen[i]);
    }
    assert_eq!(<Matrix4 as FieldElement>::components(), 16);
}

#[test]
fn multiarray_is_zero_overhead() {
    // The array wrapper adds no bytes beyond its backend value: its size
    // and alignment equal the backend's.
    assert_eq!(
        std::mem::size_of::<Vector3>(),
        std::mem::size_of::<nalgebra::SVector<i64, 3>>()
    );
    assert_eq!(
        std::mem::align_of::<Vector3>(),
        std::mem::align_of::<nalgebra::SVector<i64, 3>>()
    );
    assert_eq!(
        std::mem::size_of::<Matrix3>(),
        std::mem::size_of::<nalgebra::SMatrix<i64, 3, 3>>()
    );
    assert_eq!(
        std::mem::align_of::<Matrix3>(),
        std::mem::align_of::<nalgebra::SMatrix<i64, 3, 3>>()
    );
    assert_eq!(
        std::mem::size_of::<Matrix4>(),
        std::mem::size_of::<nalgebra::SMatrix<i64, 4, 4>>()
    );
    assert_eq!(
        std::mem::size_of::<Vector4>(),
        std::mem::size_of::<nalgebra::SVector<i64, 4>>()
    );
}

#[test]
fn field_elements_have_no_padding() {
    // Every aggregate that declares K components occupies exactly K
    // contiguous scalars: sizeof(T) == K * sizeof(scalar).
    assert_eq!(std::mem::size_of::<i64>(), 1 * std::mem::size_of::<i64>());
    assert_eq!(std::mem::size_of::<Vector3>(), 3 * std::mem::size_of::<i64>());
    assert_eq!(std::mem::size_of::<Matrix3>(), 9 * std::mem::size_of::<i64>());
    assert_eq!(std::mem::size_of::<Vector2>(), 2 * std::mem::size_of::<i64>());
    assert_eq!(std::mem::size_of::<Vector4>(), 4 * std::mem::size_of::<i64>());
    assert_eq!(std::mem::size_of::<Matrix2>(), 4 * std::mem::size_of::<i64>());
    assert_eq!(std::mem::size_of::<Matrix4>(), 16 * std::mem::size_of::<i64>());
}

#[test]
fn vector2_basics_and_planar_cross() {
    let v = Vector2::new(3, 4);
    assert_eq!(v.x(), 3);
    assert_eq!(v.y(), 4);
    assert_eq!(v.dim(), 2);

    let z = Vector2::zeros();
    assert_eq!(z.get(0), 0);
    assert_eq!(z.get(1), 0);

    let s = Vector2::from_slice(&[5, 6]);
    assert_eq!(s, Vector2::new(5, 6));
    assert!(matches!(
        Vector2::try_from_slice(&[1]),
        Err(CoreError::InsufficientData)
    ));

    // The planar cross product of the two basis vectors is the out-of-plane
    // basis vector.
    let x = Vector2::new(1, 0);
    let y = Vector2::new(0, 1);
    assert_eq!(x.cross(&y), Vector3::new(0, 0, 1));
    assert_eq!(Vector2::new(2, 3).cross(&Vector2::new(4, 5)), Vector3::new(0, 0, -2));
}
