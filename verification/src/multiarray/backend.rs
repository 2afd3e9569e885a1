//! Trusted boundary to the nalgebra backend.
//!
//! The concrete array instantiations of this crate store their elements in
//! nalgebra values. This module declares those types to the verifier, names
//! their contents, and wraps each backend operation the crate calls in one
//! function whose contract states, over those names, what the backend's
//! source shows the operation computes.
//!
//! Arithmetic wrappers carry preconditions that keep every intermediate
//! value representable in the scalar type, since the backend's arithmetic
//! is unchecked.

use vstd::prelude::*;
use crate::common::Num;
use crate::fields::ops::div_trunc;

verus! {

#[verifier::external_type_specification]
#[verifier::external_body]
#[verifier::reject_recursive_types(T)]
#[verifier::reject_recursive_types(R)]
#[verifier::reject_recursive_types(C)]
#[verifier::reject_recursive_types(S)]
pub struct ExMatrix<T, R, C, S>(nalgebra::Matrix<T, R, C, S>);

#[verifier::external_type_specification]
#[verifier::external_body]
pub struct ExConst<const R: usize>(nalgebra::Const<R>);

#[verifier::external_type_specification]
#[verifier::external_body]
#[verifier::reject_recursive_types(T)]
pub struct ExArrayStorage<T, const R: usize, const C: usize>(nalgebra::ArrayStorage<T, R, C>);

/// A magnitude small enough that any sum of a few products of such values
/// stays representable in the scalar type; the arithmetic wrappers that
/// multiply elements require it of their operands.
pub open spec fn small_mag(x: int) -> bool {
    -0x4000_0000 <= x <= 0x4000_0000
}

/// Scalar `i` of a backing 3-vector, in natural index order.
pub uninterp spec fn svector3_elem(v: nalgebra::SVector<Num, 3>, i: int) -> Num;

/// The scalars of a backing 3-vector, in natural index order.
pub open spec fn svector3_elems(v: nalgebra::SVector<Num, 3>) -> Seq<Num> {
    Seq::new(3, |i: int| svector3_elem(v, i))
}

/// Scalar `i` of a backing 3x3 matrix, in column-major order: the element
/// at row `r`, column `c` is scalar `c * 3 + r`.
pub uninterp spec fn smatrix3_elem(m: nalgebra::SMatrix<Num, 3, 3>, i: int) -> Num;

/// The scalars of a backing 3x3 matrix, in column-major order.
pub open spec fn smatrix3_elems(m: nalgebra::SMatrix<Num, 3, 3>) -> Seq<Num> {
    Seq::new(9, |i: int| smatrix3_elem(m, i))
}

// ---------------------------------------------------------------------------
// 3-vector wrappers
// ---------------------------------------------------------------------------

/// Relies on nalgebra's `Vector3::new`: the three components are stored in
/// natural order.
#[verifier::external_body]
pub fn sv3_new(x: Num, y: Num, z: Num) -> (r: nalgebra::SVector<Num, 3>)
    ensures
        svector3_elems(r) == seq![x, y, z],
{
    nalgebra::Vector3::new(x, y, z)
}

/// Relies on nalgebra's `Matrix::zeros`: every component is zero.
#[verifier::external_body]
pub fn sv3_zeros() -> (r: nalgebra::SVector<Num, 3>)
    ensures
        svector3_elems(r) == seq![0 as Num, 0 as Num, 0 as Num],
{
    nalgebra::SVector::zeros()
}

/// Relies on nalgebra's `Matrix::from_column_slice`: the value holds the
/// first three scalars of the slice; fewer make the call panic.
#[verifier::external_body]
pub fn sv3_from_slice(data: &[Num]) -> (r: nalgebra::SVector<Num, 3>)
    requires
        data@.len() >= 3,
    ensures
        svector3_elems(r) == data@.take(3),
{
    nalgebra::SVector::from_column_slice(data)
}

/// Relies on nalgebra's `Matrix::as_slice`: the components, borrowed in
/// storage order.
#[verifier::external_body]
pub fn sv3_as_slice(v: &nalgebra::SVector<Num, 3>) -> (r: &[Num])
    ensures
        r@ == svector3_elems(*v),
{
    v.as_slice()
}

/// Relies on nalgebra's `Matrix::index` through `as_slice`: component `i`.
#[verifier::external_body]
pub fn sv3_get(v: &nalgebra::SVector<Num, 3>, i: usize) -> (r: Num)
    requires
        i < 3,
    ensures
        r == svector3_elem(*v, i as int),
{
    v.as_slice()[i]
}

/// Relies on nalgebra's `Add` for matrices: component-wise addition.
#[verifier::external_body]
pub fn sv3_add(a: &nalgebra::SVector<Num, 3>, b: &nalgebra::SVector<Num, 3>) -> (r:
    nalgebra::SVector<Num, 3>)
    requires
        forall|i: int|
            0 <= i < 3 ==> i64::MIN <= #[trigger] svector3_elem(*a, i) + svector3_elem(*b, i)
                <= i64::MAX,
    ensures
        svector3_elems(r) == Seq::new(3, |i: int| (svector3_elem(*a, i) + svector3_elem(*b, i)) as Num),
{
    *a + *b
}

/// Relies on nalgebra's `Sub` for matrices: component-wise subtraction.
#[verifier::external_body]
pub fn sv3_sub(a: &nalgebra::SVector<Num, 3>, b: &nalgebra::SVector<Num, 3>) -> (r:
    nalgebra::SVector<Num, 3>)
    requires
        forall|i: int|
            0 <= i < 3 ==> i64::MIN <= #[trigger] svector3_elem(*a, i) - svector3_elem(*b, i)
                <= i64::MAX,
    ensures
        svector3_elems(r) == Seq::new(3, |i: int| (svector3_elem(*a, i) - svector3_elem(*b, i)) as Num),
{
    *a - *b
}

/// Relies on nalgebra's `Neg` for matrices: component-wise negation.
#[verifier::external_body]
pub fn sv3_neg(a: &nalgebra::SVector<Num, 3>) -> (r: nalgebra::SVector<Num, 3>)
    requires
        forall|i: int| 0 <= i < 3 ==> #[trigger] svector3_elem(*a, i) > i64::MIN,
    ensures
        svector3_elems(r) == Seq::new(3, |i: int| (-svector3_elem(*a, i)) as Num),
{
    -*a
}

/// Relies on nalgebra's `Mul<T>` for matrices: component-wise scaling.
#[verifier::external_body]
pub fn sv3_scale(a: &nalgebra::SVector<Num, 3>, k: Num) -> (r: nalgebra::SVector<Num, 3>)
    requires
        forall|i: int|
            0 <= i < 3 ==> i64::MIN <= #[trigger] svector3_elem(*a, i) * k <= i64::MAX,
    ensures
        svector3_elems(r) == Seq::new(3, |i: int| (svector3_elem(*a, i) * k) as Num),
{
    *a * k
}

/// Relies on nalgebra's `Div<T>` for matrices: component-wise division,
/// rounding toward zero as the scalar type's division does.
#[verifier::external_body]
pub fn sv3_div(a: &nalgebra::SVector<Num, 3>, k: Num) -> (r: nalgebra::SVector<Num, 3>)
    requires
        k != 0,
        forall|i: int| 0 <= i < 3 ==> !(#[trigger] svector3_elem(*a, i) == i64::MIN && k == -1),
    ensures
        svector3_elems(r) == Seq::new(
            3,
            |i: int| div_trunc(svector3_elem(*a, i) as int, k as int) as Num,
        ),
{
    *a / k
}

/// Relies on nalgebra's `Matrix::dot`: the sum of the component products.
#[verifier::external_body]
pub fn sv3_dot(a: &nalgebra::SVector<Num, 3>, b: &nalgebra::SVector<Num, 3>) -> (r: Num)
    requires
        forall|i: int| 0 <= i < 3 ==> small_mag(#[trigger] svector3_elem(*a, i) as int),
        forall|i: int| 0 <= i < 3 ==> small_mag(#[trigger] svector3_elem(*b, i) as int),
    ensures
        r as int == svector3_elem(*a, 0) * svector3_elem(*b, 0) + svector3_elem(*a, 1)
            * svector3_elem(*b, 1) + svector3_elem(*a, 2) * svector3_elem(*b, 2),
{
    a.dot(b)
}

/// Relies on nalgebra's `Matrix::cross` for 3-vectors: the standard
/// right-handed cross product.
#[verifier::external_body]
pub fn sv3_cross(a: &nalgebra::SVector<Num, 3>, b: &nalgebra::SVector<Num, 3>) -> (r:
    nalgebra::SVector<Num, 3>)
    requires
        forall|i: int| 0 <= i < 3 ==> small_mag(#[trigger] svector3_elem(*a, i) as int),
        forall|i: int| 0 <= i < 3 ==> small_mag(#[trigger] svector3_elem(*b, i) as int),
    ensures
        svector3_elems(r) == seq![
            (svector3_elem(*a, 1) * svector3_elem(*b, 2) - svector3_elem(*a, 2) * svector3_elem(
                *b,
                1,
            )) as Num,
            (svector3_elem(*a, 2) * svector3_elem(*b, 0) - svector3_elem(*a, 0) * svector3_elem(
                *b,
                2,
            )) as Num,
            (svector3_elem(*a, 0) * svector3_elem(*b, 1) - svector3_elem(*a, 1) * svector3_elem(
                *b,
                0,
            )) as Num,
        ],
{
    nalgebra::Vector3::from(a.cross(b))
}

/// Relies on nalgebra's matrix multiplication of a column vector by a row
/// vector: the outer product, with element (`r`, `c`) equal to
/// `a[r] * b[c]`, stored column-major.
#[verifier::external_body]
pub fn sv3_outer(a: &nalgebra::SVector<Num, 3>, b: &nalgebra::SVector<Num, 3>) -> (r:
    nalgebra::SMatrix<Num, 3, 3>)
    requires
        forall|i: int| 0 <= i < 3 ==> small_mag(#[trigger] svector3_elem(*a, i) as int),
        forall|i: int| 0 <= i < 3 ==> small_mag(#[trigger] svector3_elem(*b, i) as int),
    ensures
        smatrix3_elems(r) == Seq::new(
            9,
            |i: int| (svector3_elem(*a, i % 3) * svector3_elem(*b, i / 3)) as Num,
        ),
{
    *a * b.transpose()
}

/// Relies on nalgebra's `Matrix::component_mul`: the component-wise
/// (Hadamard) product.
#[verifier::external_body]
pub fn sv3_hadamard(a: &nalgebra::SVector<Num, 3>, b: &nalgebra::SVector<Num, 3>) -> (r:
    nalgebra::SVector<Num, 3>)
    requires
        forall|i: int| 0 <= i < 3 ==> small_mag(#[trigger] svector3_elem(*a, i) as int),
        forall|i: int| 0 <= i < 3 ==> small_mag(#[trigger] svector3_elem(*b, i) as int),
    ensures
        svector3_elems(r) == Seq::new(3, |i: int| (svector3_elem(*a, i) * svector3_elem(*b, i)) as Num),
{
    a.component_mul(b)
}


/// Scalar `i` of a backing 2-vector, in natural index order.
pub uninterp spec fn svector2_elem(v: nalgebra::SVector<Num, 2>, i: int) -> Num;

/// The scalars of a backing 2-vector, in natural index order.
pub open spec fn svector2_elems(v: nalgebra::SVector<Num, 2>) -> Seq<Num> {
    Seq::new(2, |i: int| svector2_elem(v, i))
}

/// Relies on nalgebra's `Vector2::new`: the two components are stored in
/// natural order.
#[verifier::external_body]
pub fn sv2_new(x: Num, y: Num) -> (r: nalgebra::SVector<Num, 2>)
    ensures
        svector2_elems(r) == seq![x, y],
{
    nalgebra::Vector2::new(x, y)
}

/// Relies on nalgebra's `Matrix::zeros`: every component is zero.
#[verifier::external_body]
pub fn sv2_zeros() -> (r: nalgebra::SVector<Num, 2>)
    ensures
        svector2_elems(r) == seq![0 as Num, 0 as Num],
{
    nalgebra::SVector::zeros()
}

/// Relies on nalgebra's `Matrix::from_column_slice`: the value holds the
/// first two scalars of the slice; fewer make the call panic.
#[verifier::external_body]
pub fn sv2_from_slice(data: &[Num]) -> (r: nalgebra::SVector<Num, 2>)
    requires
        data@.len() >= 2,
    ensures
        svector2_elems(r) == data@.take(2),
{
    nalgebra::SVector::from_column_slice(data)
}

/// Relies on nalgebra's `Matrix::index` through `as_slice`: component `i`.
#[verifier::external_body]
pub fn sv2_get(v: &nalgebra::SVector<Num, 2>, i: usize) -> (r: Num)
    requires
        i < 2,
    ensures
        r == svector2_elem(*v, i as int),
{
    v.as_slice()[i]
}

// ---------------------------------------------------------------------------
// 3x3 matrix wrappers
// ---------------------------------------------------------------------------

/// Relies on nalgebra's `Matrix3::new`, which takes its arguments in
/// row-major order and stores column-major.
#[verifier::external_body]
pub fn sm3_new(
    m11: Num,
    m12: Num,
    m13: Num,
    m21: Num,
    m22: Num,
    m23: Num,
    m31: Num,
    m32: Num,
    m33: Num,
) -> (r: nalgebra::SMatrix<Num, 3, 3>)
    ensures
        smatrix3_elems(r) == seq![m11, m21, m31, m12, m22, m32, m13, m23, m33],
{
    nalgebra::Matrix3::new(m11, m12, m13, m21, m22, m23, m31, m32, m33)
}

/// Relies on nalgebra's `Matrix::zeros`: every component is zero.
#[verifier::external_body]
pub fn sm3_zeros() -> (r: nalgebra::SMatrix<Num, 3, 3>)
    ensures
        smatrix3_elems(r) == Seq::new(9, |i: int| 0 as Num),
{
    nalgebra::SMatrix::zeros()
}

/// Relies on nalgebra's `Matrix::identity`: ones on the diagonal, zeros
/// elsewhere.
#[verifier::external_body]
pub fn sm3_identity() -> (r: nalgebra::SMatrix<Num, 3, 3>)
    ensures
        smatrix3_elems(r) == Seq::new(
            9,
            |i: int| if i % 3 == i / 3 { 1 as Num } else { 0 as Num },
        ),
{
    nalgebra::SMatrix::identity()
}

/// Relies on nalgebra's `Matrix::from_column_slice`: the value holds the
/// first nine scalars of the slice, column-major; fewer make the call
/// panic.
#[verifier::external_body]
pub fn sm3_from_slice(data: &[Num]) -> (r: nalgebra::SMatrix<Num, 3, 3>)
    requires
        data@.len() >= 9,
    ensures
        smatrix3_elems(r) == data@.take(9),
{
    nalgebra::SMatrix::from_column_slice(data)
}

/// Relies on nalgebra's `Matrix::as_slice`: the components, borrowed in
/// column-major storage order.
#[verifier::external_body]
pub fn sm3_as_slice(m: &nalgebra::SMatrix<Num, 3, 3>) -> (r: &[Num])
    ensures
        r@ == smatrix3_elems(*m),
{
    m.as_slice()
}

/// Relies on nalgebra's `Matrix::index` through `as_slice`: scalar `i` in
/// column-major order.
#[verifier::external_body]
pub fn sm3_get(m: &nalgebra::SMatrix<Num, 3, 3>, i: usize) -> (r: Num)
    requires
        i < 9,
    ensures
        r == smatrix3_elem(*m, i as int),
{
    m.as_slice()[i]
}

/// Relies on nalgebra's `Add` for matrices: component-wise addition.
#[verifier::external_body]
pub fn sm3_add(a: &nalgebra::SMatrix<Num, 3, 3>, b: &nalgebra::SMatrix<Num, 3, 3>) -> (r:
    nalgebra::SMatrix<Num, 3, 3>)
    requires
        forall|i: int|
            0 <= i < 9 ==> i64::MIN <= #[trigger] smatrix3_elem(*a, i) + smatrix3_elem(*b, i)
                <= i64::MAX,
    ensures
        smatrix3_elems(r) == Seq::new(9, |i: int| (smatrix3_elem(*a, i) + smatrix3_elem(*b, i)) as Num),
{
    *a + *b
}

/// Relies on nalgebra's `Sub` for matrices: component-wise subtraction.
#[verifier::external_body]
pub fn sm3_sub(a: &nalgebra::SMatrix<Num, 3, 3>, b: &nalgebra::SMatrix<Num, 3, 3>) -> (r:
    nalgebra::SMatrix<Num, 3, 3>)
    requires
        forall|i: int|
            0 <= i < 9 ==> i64::MIN <= #[trigger] smatrix3_elem(*a, i) - smatrix3_elem(*b, i)
                <= i64::MAX,
    ensures
        smatrix3_elems(r) == Seq::new(9, |i: int| (smatrix3_elem(*a, i) - smatrix3_elem(*b, i)) as Num),
{
    *a - *b
}

/// Relies on nalgebra's `Neg` for matrices: component-wise negation.
#[verifier::external_body]
pub fn sm3_neg(a: &nalgebra::SMatrix<Num, 3, 3>) -> (r: nalgebra::SMatrix<Num, 3, 3>)
    requires
        forall|i: int| 0 <= i < 9 ==> #[trigger] smatrix3_elem(*a, i) > i64::MIN,
    ensures
        smatrix3_elems(r) == Seq::new(9, |i: int| (-smatrix3_elem(*a, i)) as Num),
{
    -*a
}

/// Relies on nalgebra's `Mul<T>` for matrices: component-wise scaling.
#[verifier::external_body]
pub fn sm3_scale(a: &nalgebra::SMatrix<Num, 3, 3>, k: Num) -> (r: nalgebra::SMatrix<Num, 3, 3>)
    requires
        forall|i: int|
            0 <= i < 9 ==> i64::MIN <= #[trigger] smatrix3_elem(*a, i) * k <= i64::MAX,
    ensures
        smatrix3_elems(r) == Seq::new(9, |i: int| (smatrix3_elem(*a, i) * k) as Num),
{
    *a * k
}

/// Relies on nalgebra's `Div<T>` for matrices: component-wise division,
/// rounding toward zero as the scalar type's division does.
#[verifier::external_body]
pub fn sm3_div(a: &nalgebra::SMatrix<Num, 3, 3>, k: Num) -> (r: nalgebra::SMatrix<Num, 3, 3>)
    requires
        k != 0,
        forall|i: int| 0 <= i < 9 ==> !(#[trigger] smatrix3_elem(*a, i) == i64::MIN && k == -1),
    ensures
        smatrix3_elems(r) == Seq::new(
            9,
            |i: int| div_trunc(smatrix3_elem(*a, i) as int, k as int) as Num,
        ),
{
    *a / k
}

/// The element at row `r`, column `c` of a column-major scalar sequence of
/// a 3x3 matrix.
pub open spec fn m3_at(s: Seq<Num>, r: int, c: int) -> Num {
    s[c * 3 + r]
}

/// The column-major scalars of the product of two 3x3 matrices.
pub open spec fn m3_mul_spec(a: Seq<Num>, b: Seq<Num>) -> Seq<Num> {
    Seq::new(
        9,
        |i: int|
            (m3_at(a, i % 3, 0) * m3_at(b, 0, i / 3) + m3_at(a, i % 3, 1) * m3_at(b, 1, i / 3)
                + m3_at(a, i % 3, 2) * m3_at(b, 2, i / 3)) as Num,
    )
}

/// Relies on nalgebra's matrix multiplication: element (`r`, `c`) of the
/// product is the dot product of row `r` of the left operand with column
/// `c` of the right operand.
#[verifier::external_body]
pub fn sm3_mul(a: &nalgebra::SMatrix<Num, 3, 3>, b: &nalgebra::SMatrix<Num, 3, 3>) -> (r:
    nalgebra::SMatrix<Num, 3, 3>)
    requires
        forall|i: int| 0 <= i < 9 ==> small_mag(#[trigger] smatrix3_elem(*a, i) as int),
        forall|i: int| 0 <= i < 9 ==> small_mag(#[trigger] smatrix3_elem(*b, i) as int),
    ensures
        smatrix3_elems(r) == m3_mul_spec(smatrix3_elems(*a), smatrix3_elems(*b)),
{
    *a * *b
}

/// The scalars of the product of a 3x3 matrix and a 3-vector.
pub open spec fn m3_mul_vec_spec(a: Seq<Num>, v: Seq<Num>) -> Seq<Num> {
    Seq::new(
        3,
        |i: int|
            (m3_at(a, i, 0) * v[0] + m3_at(a, i, 1) * v[1] + m3_at(a, i, 2) * v[2]) as Num,
    )
}

/// Relies on nalgebra's matrix-vector multiplication: component `r` of the
/// product is the dot product of row `r` with the vector.
#[verifier::external_body]
pub fn sm3_mul_vec(a: &nalgebra::SMatrix<Num, 3, 3>, v: &nalgebra::SVector<Num, 3>) -> (r:
    nalgebra::SVector<Num, 3>)
    requires
        forall|i: int| 0 <= i < 9 ==> small_mag(#[trigger] smatrix3_elem(*a, i) as int),
        forall|i: int| 0 <= i < 3 ==> small_mag(#[trigger] svector3_elem(*v, i) as int),
    ensures
        svector3_elems(r) == m3_mul_vec_spec(smatrix3_elems(*a), svector3_elems(*v)),
{
    *a * *v
}

/// Relies on nalgebra's `Matrix::transpose`: element (`r`, `c`) of the
/// result is element (`c`, `r`) of the input.
#[verifier::external_body]
pub fn sm3_transpose(a: &nalgebra::SMatrix<Num, 3, 3>) -> (r: nalgebra::SMatrix<Num, 3, 3>)
    ensures
        smatrix3_elems(r) == Seq::new(9, |i: int| smatrix3_elem(*a, (i % 3) * 3 + i / 3)),
{
    a.transpose()
}

/// Relies on nalgebra's `Matrix::component_mul`: the component-wise
/// (Hadamard) product.
#[verifier::external_body]
pub fn sm3_hadamard(a: &nalgebra::SMatrix<Num, 3, 3>, b: &nalgebra::SMatrix<Num, 3, 3>) -> (r:
    nalgebra::SMatrix<Num, 3, 3>)
    requires
        forall|i: int| 0 <= i < 9 ==> small_mag(#[trigger] smatrix3_elem(*a, i) as int),
        forall|i: int| 0 <= i < 9 ==> small_mag(#[trigger] smatrix3_elem(*b, i) as int),
    ensures
        smatrix3_elems(r) == Seq::new(9, |i: int| (smatrix3_elem(*a, i) * smatrix3_elem(*b, i)) as Num),
{
    a.component_mul(b)
}


/// Scalar `i` of a backing 4-vector, in natural index order.
pub uninterp spec fn svector4_elem(v: nalgebra::SVector<Num, 4>, i: int) -> Num;

/// The scalars of a backing 4-vector, in natural index order.
pub open spec fn svector4_elems(v: nalgebra::SVector<Num, 4>) -> Seq<Num> {
    Seq::new(4, |i: int| svector4_elem(v, i))
}

/// Relies on nalgebra's `Vector4::new`: the four components are stored in
/// natural order.
#[verifier::external_body]
pub fn sv4_new(x: Num, y: Num, z: Num, w: Num) -> (r: nalgebra::SVector<Num, 4>)
    ensures
        svector4_elems(r) == seq![x, y, z, w],
{
    nalgebra::Vector4::new(x, y, z, w)
}

/// Relies on nalgebra's `Matrix::zeros`: every component is zero.
#[verifier::external_body]
pub fn sv4_zeros() -> (r: nalgebra::SVector<Num, 4>)
    ensures
        svector4_elems(r) == Seq::new(4, |i: int| 0 as Num),
{
    nalgebra::SVector::zeros()
}

/// Relies on nalgebra's `Matrix::from_column_slice`: the value holds the
/// first four scalars of the slice; fewer make the call panic.
#[verifier::external_body]
pub fn sv4_from_slice(data: &[Num]) -> (r: nalgebra::SVector<Num, 4>)
    requires
        data@.len() >= 4,
    ensures
        svector4_elems(r) == data@.take(4),
{
    nalgebra::SVector::from_column_slice(data)
}

/// Relies on nalgebra's `Matrix::index` through `as_slice`: component `i`.
#[verifier::external_body]
pub fn sv4_get(v: &nalgebra::SVector<Num, 4>, i: usize) -> (r: Num)
    requires
        i < 4,
    ensures
        r == svector4_elem(*v, i as int),
{
    v.as_slice()[i]
}

/// Scalar `i` of a backing 2x2 matrix, in column-major order: the element
/// at row `r`, column `c` is scalar `c * 2 + r`.
pub uninterp spec fn smatrix2_elem(m: nalgebra::SMatrix<Num, 2, 2>, i: int) -> Num;

/// The scalars of a backing 2x2 matrix, in column-major order.
pub open spec fn smatrix2_elems(m: nalgebra::SMatrix<Num, 2, 2>) -> Seq<Num> {
    Seq::new(4, |i: int| smatrix2_elem(m, i))
}

/// Relies on nalgebra's `Matrix2::new`, which takes its arguments in
/// row-major order and stores column-major.
#[verifier::external_body]
pub fn sm2_new(m11: Num, m12: Num, m21: Num, m22: Num) -> (r: nalgebra::SMatrix<Num, 2, 2>)
    ensures
        smatrix2_elems(r) == seq![m11, m21, m12, m22],
{
    nalgebra::Matrix2::new(m11, m12, m21, m22)
}

/// Relies on nalgebra's `Matrix::zeros`: every component is zero.
#[verifier::external_body]
pub fn sm2_zeros() -> (r: nalgebra::SMatrix<Num, 2, 2>)
    ensures
        smatrix2_elems(r) == Seq::new(4, |i: int| 0 as Num),
{
    nalgebra::SMatrix::zeros()
}

/// Relies on nalgebra's `Matrix::identity`: ones on the diagonal, zeros
/// elsewhere.
#[verifier::external_body]
pub fn sm2_identity() -> (r: nalgebra::SMatrix<Num, 2, 2>)
    ensures
        smatrix2_elems(r) == Seq::new(
            4,
            |i: int| if i % 2 == i / 2 { 1 as Num } else { 0 as Num },
        ),
{
    nalgebra::SMatrix::identity()
}

/// Relies on nalgebra's `Matrix::from_column_slice`: the value holds the
/// first four scalars of the slice, column-major; fewer make the call
/// panic.
#[verifier::external_body]
pub fn sm2_from_slice(data: &[Num]) -> (r: nalgebra::SMatrix<Num, 2, 2>)
    requires
        data@.len() >= 4,
    ensures
        smatrix2_elems(r) == data@.take(4),
{
    nalgebra::SMatrix::from_column_slice(data)
}

/// Relies on nalgebra's `Matrix::index` through `as_slice`: scalar `i` in
/// column-major order.
#[verifier::external_body]
pub fn sm2_get(m: &nalgebra::SMatrix<Num, 2, 2>, i: usize) -> (r: Num)
    requires
        i < 4,
    ensures
        r == smatrix2_elem(*m, i as int),
{
    m.as_slice()[i]
}

/// Scalar `i` of a backing 4x4 matrix, in column-major order: the element
/// at row `r`, column `c` is scalar `c * 4 + r`.
pub uninterp spec fn smatrix4_elem(m: nalgebra::SMatrix<Num, 4, 4>, i: int) -> Num;

/// The scalars of a backing 4x4 matrix, in column-major order.
pub open spec fn smatrix4_elems(m: nalgebra::SMatrix<Num, 4, 4>) -> Seq<Num> {
    Seq::new(16, |i: int| smatrix4_elem(m, i))
}

/// Relies on nalgebra's `Matrix4::new`, which takes its arguments in
/// row-major order and stores column-major.
#[verifier::external_body]
pub fn sm4_new(
    m11: Num,
    m12: Num,
    m13: Num,
    m14: Num,
    m21: Num,
    m22: Num,
    m23: Num,
    m24: Num,
    m31: Num,
    m32: Num,
    m33: Num,
    m34: Num,
    m41: Num,
    m42: Num,
    m43: Num,
    m44: Num,
) -> (r: nalgebra::SMatrix<Num, 4, 4>)
    ensures
        smatrix4_elems(r) == seq![
            m11,
            m21,
            m31,
            m41,
            m12,
            m22,
            m32,
            m42,
            m13,
            m23,
            m33,
            m43,
            m14,
            m24,
            m34,
            m44,
        ],
{
    nalgebra::Matrix4::new(
        m11, m12, m13, m14,
        m21, m22, m23, m24,
        m31, m32, m33, m34,
        m41, m42, m43, m44,
    )
}

/// Relies on nalgebra's `Matrix::zeros`: every component is zero.
#[verifier::external_body]
pub fn sm4_zeros() -> (r: nalgebra::SMatrix<Num, 4, 4>)
    ensures
        smatrix4_elems(r) == Seq::new(16, |i: int| 0 as Num),
{
    nalgebra::SMatrix::zeros()
}

/// Relies on nalgebra's `Matrix::identity`: ones on the diagonal, zeros
/// elsewhere.
#[verifier::external_body]
pub fn sm4_identity() -> (r: nalgebra::SMatrix<Num, 4, 4>)
    ensures
        smatrix4_elems(r) == Seq::new(
            16,
            |i: int| if i % 4 == i / 4 { 1 as Num } else { 0 as Num },
        ),
{
    nalgebra::SMatrix::identity()
}

/// Relies on nalgebra's `Matrix::from_column_slice`: the value holds the
/// first sixteen scalars of the slice, column-major; fewer make the call
/// panic.
#[verifier::external_body]
pub fn sm4_from_slice(data: &[Num]) -> (r: nalgebra::SMatrix<Num, 4, 4>)
    requires
        data@.len() >= 16,
    ensures
        smatrix4_elems(r) == data@.take(16),
{
    nalgebra::SMatrix::from_column_slice(data)
}

/// Relies on nalgebra's `Matrix::index` through `as_slice`: scalar `i` in
/// column-major order.
#[verifier::external_body]
pub fn sm4_get(m: &nalgebra::SMatrix<Num, 4, 4>, i: usize) -> (r: Num)
    requires
        i < 16,
    ensures
        r == smatrix4_elem(*m, i as int),
{
    m.as_slice()[i]
}

// ---------------------------------------------------------------------------
// Dynamically-sized backends
// ---------------------------------------------------------------------------

/// Backing store of a dynamic vector. The verifier cannot declare the
/// backend's dynamically-dimensioned type directly, so the value is held
/// opaquely in a field of this struct; its contents are named below.
#[verifier::external_body]
pub struct DynVectorStore {
    inner: nalgebra::DVector<Num>,
}

/// Backing store of a dynamic matrix, held opaquely for the same reason as
/// `DynVectorStore`; its dimensions and contents are named below.
#[verifier::external_body]
pub struct DynMatrixStore {
    inner: nalgebra::DMatrix<Num>,
}

/// A magnitude small enough that any dot product of up to a million such
/// values stays representable in the scalar type; the dynamic
/// multiplication wrapper requires it of its operands.
pub open spec fn dyn_mag(x: int) -> bool {
    -0x10_0000 <= x <= 0x10_0000
}

/// The length of a backing dynamic vector.
pub uninterp spec fn dvector_len(v: DynVectorStore) -> nat;

/// Scalar `i` of a backing dynamic vector, in natural index order.
pub uninterp spec fn dvector_elem(v: DynVectorStore, i: int) -> Num;

/// The scalars of a backing dynamic vector, in natural index order.
pub open spec fn dvector_elems(v: DynVectorStore) -> Seq<Num> {
    Seq::new(dvector_len(v), |i: int| dvector_elem(v, i))
}

/// The number of rows of a backing dynamic matrix.
pub uninterp spec fn dmatrix_nrows(m: DynMatrixStore) -> nat;

/// The number of columns of a backing dynamic matrix.
pub uninterp spec fn dmatrix_ncols(m: DynMatrixStore) -> nat;

/// Scalar `i` of a backing dynamic matrix, in column-major order: the
/// element at row `r`, column `c` is scalar `c * nrows + r`.
pub uninterp spec fn dmatrix_elem(m: DynMatrixStore, i: int) -> Num;

/// The scalars of a backing dynamic matrix, in column-major order.
pub open spec fn dmatrix_elems(m: DynMatrixStore) -> Seq<Num> {
    Seq::new(dmatrix_nrows(m) * dmatrix_ncols(m), |i: int| dmatrix_elem(m, i))
}

/// Relies on nalgebra's `DVector::zeros`: a vector of `n` zeros.
#[verifier::external_body]
pub fn dv_zeros(n: usize) -> (r: DynVectorStore)
    ensures
        dvector_len(r) == n,
        dvector_elems(r) == Seq::new(n as nat, |i: int| 0 as Num),
{
    DynVectorStore { inner: nalgebra::DVector::zeros(n) }
}

/// Relies on nalgebra's `Matrix::from_column_slice` for dynamic vectors:
/// the value holds exactly the scalars of the slice.
#[verifier::external_body]
pub fn dv_from_slice(data: &[Num]) -> (r: DynVectorStore)
    ensures
        dvector_len(r) == data@.len(),
        dvector_elems(r) == data@,
{
    DynVectorStore { inner: nalgebra::DVector::from_column_slice(data) }
}

/// Relies on nalgebra's `Matrix::as_slice`: the scalars, borrowed in
/// storage order.
#[verifier::external_body]
pub fn dv_as_slice(v: &DynVectorStore) -> (r: &[Num])
    ensures
        r@ == dvector_elems(*v),
{
    v.inner.as_slice()
}

/// Relies on nalgebra's `Matrix::index` through `as_slice`: scalar `i`.
#[verifier::external_body]
pub fn dv_get(v: &DynVectorStore, i: usize) -> (r: Num)
    requires
        (i as nat) < dvector_len(*v),
    ensures
        r == dvector_elem(*v, i as int),
{
    v.inner.as_slice()[i]
}

/// Relies on nalgebra's `DMatrix::zeros`: an `nrows` by `ncols` matrix of
/// zeros.
#[verifier::external_body]
pub fn dm_zeros(nrows: usize, ncols: usize) -> (r: DynMatrixStore)
    requires
        (nrows as int) * (ncols as int) <= usize::MAX,
    ensures
        dmatrix_nrows(r) == nrows,
        dmatrix_ncols(r) == ncols,
        dmatrix_elems(r) == Seq::new((nrows * ncols) as nat, |i: int| 0 as Num),
{
    DynMatrixStore { inner: nalgebra::DMatrix::zeros(nrows, ncols) }
}

/// Relies on nalgebra's `Matrix::from_column_slice` for dynamic matrices:
/// the value holds exactly the scalars of the slice, column-major. The
/// dynamic allocation path collects the whole slice and asserts that its
/// length equals `nrows * ncols`, so any other length makes the call
/// panic.
#[verifier::external_body]
pub fn dm_from_slice(nrows: usize, ncols: usize, data: &[Num]) -> (r: DynMatrixStore)
    requires
        (nrows as int) * (ncols as int) == data@.len(),
    ensures
        dmatrix_nrows(r) == nrows,
        dmatrix_ncols(r) == ncols,
        dmatrix_elems(r) == data@,
{
    DynMatrixStore { inner: nalgebra::DMatrix::from_column_slice(nrows, ncols, data) }
}

/// Relies on nalgebra's `Matrix::nrows`.
#[verifier::external_body]
pub fn dm_nrows(m: &DynMatrixStore) -> (r: usize)
    ensures
        r as nat == dmatrix_nrows(*m),
{
    m.inner.nrows()
}

/// Relies on nalgebra's `Matrix::ncols`.
#[verifier::external_body]
pub fn dm_ncols(m: &DynMatrixStore) -> (r: usize)
    ensures
        r as nat == dmatrix_ncols(*m),
{
    m.inner.ncols()
}

/// Relies on nalgebra's `Matrix::as_slice`: the scalars, borrowed in
/// column-major storage order.
#[verifier::external_body]
pub fn dm_as_slice(m: &DynMatrixStore) -> (r: &[Num])
    ensures
        r@ == dmatrix_elems(*m),
{
    m.inner.as_slice()
}

/// Relies on nalgebra's `Matrix::index` through `as_slice`: scalar `i` in
/// column-major order.
#[verifier::external_body]
pub fn dm_get(m: &DynMatrixStore, i: usize) -> (r: Num)
    requires
        (i as nat) < dmatrix_nrows(*m) * dmatrix_ncols(*m),
    ensures
        r == dmatrix_elem(*m, i as int),
{
    m.inner.as_slice()[i]
}

/// The dot product of row `r` of a column-major matrix `a` with `ar` rows
/// and column `c` of a column-major matrix `b` with `br` rows, over the
/// first `t` terms.
pub open spec fn dmat_dot(a: Seq<Num>, ar: int, b: Seq<Num>, br: int, r: int, c: int, t: int) -> int
    decreases t,
{
    if t <= 0 {
        0
    } else {
        dmat_dot(a, ar, b, br, r, c, t - 1) + a[(t - 1) * ar + r] * b[c * br + (t - 1)]
    }
}

/// Relies on nalgebra's matrix multiplication for dynamic matrices: the
/// operands' inner dimensions must match, and element (`r`, `c`) of the
/// product is the dot product of row `r` of the left operand with column
/// `c` of the right operand.
#[verifier::external_body]
pub fn dm_mul(a: &DynMatrixStore, b: &DynMatrixStore) -> (r: DynMatrixStore)
    requires
        dmatrix_ncols(*a) == dmatrix_nrows(*b),
        dmatrix_ncols(*a) <= 0x10_0000,
        dmatrix_nrows(*a) * dmatrix_ncols(*b) <= usize::MAX,
        forall|i: int|
            0 <= i < dmatrix_nrows(*a) * dmatrix_ncols(*a) ==> dyn_mag(
                #[trigger] dmatrix_elem(*a, i) as int,
            ),
        forall|i: int|
            0 <= i < dmatrix_nrows(*b) * dmatrix_ncols(*b) ==> dyn_mag(
                #[trigger] dmatrix_elem(*b, i) as int,
            ),
    ensures
        dmatrix_nrows(r) == dmatrix_nrows(*a),
        dmatrix_ncols(r) == dmatrix_ncols(*b),
        dmatrix_elems(r) == Seq::new(
            dmatrix_nrows(*a) * dmatrix_ncols(*b),
            |i: int|
                dmat_dot(
                    dmatrix_elems(*a),
                    dmatrix_nrows(*a) as int,
                    dmatrix_elems(*b),
                    dmatrix_nrows(*b) as int,
                    i % (dmatrix_nrows(*a) as int),
                    i / (dmatrix_nrows(*a) as int),
                    dmatrix_ncols(*a) as int,
                ) as Num,
        ),
{
    DynMatrixStore { inner: &a.inner * &b.inner }
}

} // verus!
