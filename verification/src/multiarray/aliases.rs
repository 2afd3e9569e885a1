//! Type aliases and dimension-specific constructors and accessors.
//!
//! Users interact with these aliases rather than with `MultiArray<T, S, B>`
//! directly. The concrete instantiations are fixed to the configured scalar
//! and the three-dimensional shapes the simulation core works with.

use vstd::prelude::*;
use super::backend::dmatrix_elems;
use super::backend::dmatrix_ncols;
use super::backend::dmatrix_nrows;
use super::backend::dmat_dot;
use super::backend::dvector_elems;
use super::backend::dyn_mag;
use super::backend::dm_as_slice;
use super::backend::dm_from_slice;
use super::backend::dm_get;
use super::backend::dm_mul;
use super::backend::dm_ncols;
use super::backend::dm_nrows;
use super::backend::dm_zeros;
use super::backend::dv_as_slice;
use super::backend::dv_from_slice;
use super::backend::dv_get;
use super::backend::dv_zeros;
use super::backend::DynMatrixStore;
use super::backend::DynVectorStore;
use super::backend::smatrix2_elems;
use super::backend::smatrix3_elems;
use super::backend::smatrix4_elems;
use super::backend::sm2_from_slice;
use super::backend::sm2_get;
use super::backend::sm2_identity;
use super::backend::sm2_new;
use super::backend::sm2_zeros;
use super::backend::sm4_from_slice;
use super::backend::sm4_get;
use super::backend::sm4_identity;
use super::backend::sm4_new;
use super::backend::sm4_zeros;
use super::backend::svector2_elems;
use super::backend::svector4_elems;
use super::backend::sv4_from_slice;
use super::backend::sv4_get;
use super::backend::sv4_new;
use super::backend::sv4_zeros;
use super::backend::sv2_from_slice;
use super::backend::sv2_get;
use super::backend::sv2_new;
use super::backend::sv2_zeros;
use super::backend::sm3_as_slice;
use super::backend::sm3_from_slice;
use super::backend::sm3_get;
use super::backend::sm3_identity;
use super::backend::sm3_new;
use super::backend::sm3_zeros;
use super::backend::svector3_elems;
use super::backend::sv3_as_slice;
use super::backend::sv3_from_slice;
use super::backend::sv3_get;
use super::backend::sv3_new;
use super::backend::sv3_zeros;
use super::types::DenseRawStorage;
use super::types::DynRank1;
use super::types::DynRank2;
use super::types::MultiArray;
use super::types::NumericMultiArrayOps;
use super::types::Rank1;
use super::types::Rank2;
use super::types::RawStorage;
use crate::common::CoreError;
use crate::common::Num;
use crate::fields::storage::FieldElement;

verus! {

/// Static vector type (stack-allocated, copyable).
pub type Vector<T, const N: usize> = MultiArray<T, Rank1<N>, nalgebra::SVector<T, N>>;

/// Static matrix type (stack-allocated, copyable).
pub type Mat<T, const R: usize, const C: usize> = MultiArray<
    T,
    Rank2<R, C>,
    nalgebra::SMatrix<T, R, C>,
>;

/// 2-vector of the configured scalar.
pub type Vector2 = Vector<Num, 2>;

/// 3-vector of the configured scalar.
pub type Vector3 = Vector<Num, 3>;

/// 4-vector of the configured scalar.
pub type Vector4 = Vector<Num, 4>;

/// 2x2 matrix of the configured scalar.
pub type Matrix2 = Mat<Num, 2, 2>;

/// 3x3 matrix of the configured scalar.
pub type Matrix3 = Mat<Num, 3, 3>;

/// 4x4 matrix of the configured scalar.
pub type Matrix4 = Mat<Num, 4, 4>;

/// Geometric point alias: the same value type as a vector, under its
/// semantic name.
pub type Point3 = Vector3;

/// Dynamic vector of the configured scalar (heap-allocated, with runtime
/// length).
pub type DynVector = MultiArray<Num, DynRank1, DynVectorStore>;

/// Dynamic matrix of the configured scalar (heap-allocated, with runtime
/// dimensions).
pub type DynMatrix = MultiArray<Num, DynRank2, DynMatrixStore>;

impl RawStorage<Num> for nalgebra::SVector<Num, 3> {
    open spec fn contents(&self) -> Seq<Num> {
        svector3_elems(*self)
    }

    fn len(&self) -> (r: usize) {
        3
    }

    fn is_empty(&self) -> (r: bool) {
        false
    }
}

impl DenseRawStorage<Num> for nalgebra::SVector<Num, 3> {
    fn as_slice(&self) -> (r: &[Num]) {
        sv3_as_slice(self)
    }
}

impl RawStorage<Num> for nalgebra::SMatrix<Num, 3, 3> {
    open spec fn contents(&self) -> Seq<Num> {
        smatrix3_elems(*self)
    }

    fn len(&self) -> (r: usize) {
        9
    }

    fn is_empty(&self) -> (r: bool) {
        false
    }
}

impl DenseRawStorage<Num> for nalgebra::SMatrix<Num, 3, 3> {
    fn as_slice(&self) -> (r: &[Num]) {
        sm3_as_slice(self)
    }
}

impl NumericMultiArrayOps<Num> for Vector3 {

}

impl NumericMultiArrayOps<Num> for Matrix3 {

}

impl Vector3 {
    /// The vector's scalars, in natural component order.
    pub open spec fn elems(&self) -> Seq<Num> {
        svector3_elems(self.data)
    }

    /// Builds the vector (`x`, `y`, `z`).
    pub fn new(x: Num, y: Num, z: Num) -> (r: Self)
        ensures
            r.elems() == seq![x, y, z],
    {
        MultiArray::from_inner(sv3_new(x, y, z))
    }

    /// The zero vector.
    pub fn zeros() -> (r: Self)
        ensures
            r.elems() == seq![0 as Num, 0 as Num, 0 as Num],
    {
        MultiArray::from_inner(sv3_zeros())
    }

    /// Builds a vector from a flat scalar slice, whose length must exactly
    /// match the element count.
    pub fn from_slice(data: &[Num]) -> (r: Self)
        requires
            data@.len() == 3,
        ensures
            r.elems() == data@,
    {
        let r = MultiArray::from_inner(sv3_from_slice(data));
        proof {
            assert(data@.take(3) =~= data@);
        }
        r
    }

    /// Builds a vector from a flat scalar slice, or fails with
    /// `InsufficientData` exactly when the slice's length does not match the
    /// element count.
    pub fn try_from_slice(data: &[Num]) -> (r: Result<Self, CoreError>)
        ensures
            data@.len() == 3 ==> (r matches Ok(v) && v.elems() == data@),
            data@.len() != 3 ==> r == Err::<Self, CoreError>(CoreError::InsufficientData),
    {
        if data.len() == 3 {
            Ok(Self::from_slice(data))
        } else {
            Err(CoreError::InsufficientData)
        }
    }

    /// The number of components.
    pub fn dim(&self) -> (r: usize)
        ensures
            r as nat == self.elems().len(),
    {
        3
    }

    /// Returns the component at `i`.
    pub fn get(&self, i: usize) -> (r: Num)
        requires
            i < 3,
        ensures
            r == self.elems()[i as int],
    {
        sv3_get(&self.data, i)
    }

    /// Returns the component at `i`, or `IndexOutOfBounds` exactly when `i`
    /// is at least the element count.
    pub fn try_get(&self, i: usize) -> (r: Result<Num, CoreError>)
        ensures
            i < 3 ==> r == Ok::<Num, CoreError>(self.elems()[i as int]),
            i >= 3 ==> r == Err::<Num, CoreError>(CoreError::IndexOutOfBounds),
    {
        if i < 3 {
            Ok(self.get(i))
        } else {
            Err(CoreError::IndexOutOfBounds)
        }
    }

    /// The first component.
    pub fn x(&self) -> (r: Num)
        ensures
            r == self.elems()[0],
    {
        self.get(0)
    }

    /// The second component.
    pub fn y(&self) -> (r: Num)
        ensures
            r == self.elems()[1],
    {
        self.get(1)
    }

    /// The third component.
    pub fn z(&self) -> (r: Num)
        ensures
            r == self.elems()[2],
    {
        self.get(2)
    }
}

impl Matrix3 {
    /// The matrix's scalars, in column-major order: the element at row `r`,
    /// column `c` is scalar `c * 3 + r`.
    pub open spec fn elems(&self) -> Seq<Num> {
        smatrix3_elems(self.data)
    }

    /// Builds a 3x3 matrix from its elements given in row-major order.
    pub fn new(
        m11: Num,
        m12: Num,
        m13: Num,
        m21: Num,
        m22: Num,
        m23: Num,
        m31: Num,
        m32: Num,
        m33: Num,
    ) -> (r: Self)
        ensures
            r.elems() == seq![m11, m21, m31, m12, m22, m32, m13, m23, m33],
    {
        MultiArray::from_inner(sm3_new(m11, m12, m13, m21, m22, m23, m31, m32, m33))
    }

    /// The zero matrix.
    pub fn zeros() -> (r: Self)
        ensures
            r.elems() == Seq::new(9, |i: int| 0 as Num),
    {
        MultiArray::from_inner(sm3_zeros())
    }

    /// The identity matrix: ones on the diagonal, zeros elsewhere.
    pub fn identity() -> (r: Self)
        ensures
            r.elems() == Seq::new(9, |i: int| if i % 3 == i / 3 { 1 as Num } else { 0 as Num }),
    {
        MultiArray::from_inner(sm3_identity())
    }

    /// Builds a matrix from a flat scalar slice in column-major order, whose
    /// length must exactly match the element count.
    pub fn from_slice(data: &[Num]) -> (r: Self)
        requires
            data@.len() == 9,
        ensures
            r.elems() == data@,
    {
        let r = MultiArray::from_inner(sm3_from_slice(data));
        proof {
            assert(data@.take(9) =~= data@);
        }
        r
    }

    /// Builds a matrix from a flat scalar slice, or fails with
    /// `InsufficientData` exactly when the slice's length does not match the
    /// element count.
    pub fn try_from_slice(data: &[Num]) -> (r: Result<Self, CoreError>)
        ensures
            data@.len() == 9 ==> (r matches Ok(m) && m.elems() == data@),
            data@.len() != 9 ==> r == Err::<Self, CoreError>(CoreError::InsufficientData),
    {
        if data.len() == 9 {
            Ok(Self::from_slice(data))
        } else {
            Err(CoreError::InsufficientData)
        }
    }

    /// The number of rows.
    pub fn nrows(&self) -> (r: usize)
        ensures
            r == 3,
    {
        3
    }

    /// The number of columns.
    pub fn ncols(&self) -> (r: usize)
        ensures
            r == 3,
    {
        3
    }

    /// Returns the scalar at linear index `i`, in column-major order.
    pub fn get(&self, i: usize) -> (r: Num)
        requires
            i < 9,
        ensures
            r == self.elems()[i as int],
    {
        sm3_get(&self.data, i)
    }

    /// Returns the scalar at linear index `i`, or `IndexOutOfBounds` exactly
    /// when `i` is at least the element count.
    pub fn try_get(&self, i: usize) -> (r: Result<Num, CoreError>)
        ensures
            i < 9 ==> r == Ok::<Num, CoreError>(self.elems()[i as int]),
            i >= 9 ==> r == Err::<Num, CoreError>(CoreError::IndexOutOfBounds),
    {
        if i < 9 {
            Ok(self.get(i))
        } else {
            Err(CoreError::IndexOutOfBounds)
        }
    }
}


impl RawStorage<Num> for nalgebra::SVector<Num, 2> {
    open spec fn contents(&self) -> Seq<Num> {
        svector2_elems(*self)
    }

    fn len(&self) -> (r: usize) {
        2
    }

    fn is_empty(&self) -> (r: bool) {
        false
    }
}

impl Vector2 {
    /// The vector's scalars, in natural component order.
    pub open spec fn elems(&self) -> Seq<Num> {
        svector2_elems(self.data)
    }

    /// Builds the vector (`x`, `y`).
    pub fn new(x: Num, y: Num) -> (r: Self)
        ensures
            r.elems() == seq![x, y],
    {
        MultiArray::from_inner(sv2_new(x, y))
    }

    /// The zero vector.
    pub fn zeros() -> (r: Self)
        ensures
            r.elems() == seq![0 as Num, 0 as Num],
    {
        MultiArray::from_inner(sv2_zeros())
    }

    /// Builds a vector from a flat scalar slice, whose length must exactly
    /// match the element count.
    pub fn from_slice(data: &[Num]) -> (r: Self)
        requires
            data@.len() == 2,
        ensures
            r.elems() == data@,
    {
        let r = MultiArray::from_inner(sv2_from_slice(data));
        proof {
            assert(data@.take(2) =~= data@);
        }
        r
    }

    /// Builds a vector from a flat scalar slice, or fails with
    /// `InsufficientData` exactly when the slice's length does not match the
    /// element count.
    pub fn try_from_slice(data: &[Num]) -> (r: Result<Self, CoreError>)
        ensures
            data@.len() == 2 ==> (r matches Ok(v) && v.elems() == data@),
            data@.len() != 2 ==> r == Err::<Self, CoreError>(CoreError::InsufficientData),
    {
        if data.len() == 2 {
            Ok(Self::from_slice(data))
        } else {
            Err(CoreError::InsufficientData)
        }
    }

    /// The number of components.
    pub fn dim(&self) -> (r: usize)
        ensures
            r as nat == self.elems().len(),
    {
        2
    }

    /// Returns the component at `i`.
    pub fn get(&self, i: usize) -> (r: Num)
        requires
            i < 2,
        ensures
            r == self.elems()[i as int],
    {
        sv2_get(&self.data, i)
    }

    /// The first component.
    pub fn x(&self) -> (r: Num)
        ensures
            r == self.elems()[0],
    {
        self.get(0)
    }

    /// The second component.
    pub fn y(&self) -> (r: Num)
        ensures
            r == self.elems()[1],
    {
        self.get(1)
    }
}


impl RawStorage<Num> for nalgebra::SVector<Num, 4> {
    open spec fn contents(&self) -> Seq<Num> {
        svector4_elems(*self)
    }

    fn len(&self) -> (r: usize) {
        4
    }

    fn is_empty(&self) -> (r: bool) {
        false
    }
}

impl RawStorage<Num> for nalgebra::SMatrix<Num, 2, 2> {
    open spec fn contents(&self) -> Seq<Num> {
        smatrix2_elems(*self)
    }

    fn len(&self) -> (r: usize) {
        4
    }

    fn is_empty(&self) -> (r: bool) {
        false
    }
}

impl RawStorage<Num> for nalgebra::SMatrix<Num, 4, 4> {
    open spec fn contents(&self) -> Seq<Num> {
        smatrix4_elems(*self)
    }

    fn len(&self) -> (r: usize) {
        16
    }

    fn is_empty(&self) -> (r: bool) {
        false
    }
}

impl Vector4 {
    /// The vector's scalars, in natural component order.
    pub open spec fn elems(&self) -> Seq<Num> {
        svector4_elems(self.data)
    }

    /// Builds the vector from its components, in order.
    pub fn new(c0: Num, c1: Num, c2: Num, c3: Num) -> (r: Self)
        ensures
            r.elems() == seq![c0, c1, c2, c3],
    {
        MultiArray::from_inner(sv4_new(c0, c1, c2, c3))
    }

    /// The zero vector.
    pub fn zeros() -> (r: Self)
        ensures
            r.elems() == Seq::new(4, |i: int| 0 as Num),
    {
        let r = MultiArray::from_inner(sv4_zeros());
        proof {
            assert(r.elems() =~= Seq::new(4, |i: int| 0 as Num));
        }
        r
    }

    /// Builds a vector from a flat scalar slice, whose length must exactly
    /// match the element count.
    pub fn from_slice(data: &[Num]) -> (r: Self)
        requires
            data@.len() == 4,
        ensures
            r.elems() == data@,
    {
        let r = MultiArray::from_inner(sv4_from_slice(data));
        proof {
            assert(data@.take(4) =~= data@);
        }
        r
    }

    /// Builds a vector from a flat scalar slice, or fails with
    /// `InsufficientData` exactly when the slice's length does not match the
    /// element count.
    pub fn try_from_slice(data: &[Num]) -> (r: Result<Self, CoreError>)
        ensures
            data@.len() == 4 ==> (r matches Ok(v) && v.elems() == data@),
            data@.len() != 4 ==> r == Err::<Self, CoreError>(CoreError::InsufficientData),
    {
        if data.len() == 4 {
            Ok(Self::from_slice(data))
        } else {
            Err(CoreError::InsufficientData)
        }
    }

    /// The number of components.
    pub fn dim(&self) -> (r: usize)
        ensures
            r as nat == self.elems().len(),
    {
        4
    }

    /// Returns the component at `i`.
    pub fn get(&self, i: usize) -> (r: Num)
        requires
            i < 4,
        ensures
            r == self.elems()[i as int],
    {
        sv4_get(&self.data, i)
    }

    /// Returns the component at `i`, or `IndexOutOfBounds` exactly when `i`
    /// is at least the element count.
    pub fn try_get(&self, i: usize) -> (r: Result<Num, CoreError>)
        ensures
            i < 4 ==> r == Ok::<Num, CoreError>(self.elems()[i as int]),
            i >= 4 ==> r == Err::<Num, CoreError>(CoreError::IndexOutOfBounds),
    {
        if i < 4 {
            Ok(self.get(i))
        } else {
            Err(CoreError::IndexOutOfBounds)
        }
    }

    /// The first component.
    pub fn x(&self) -> (r: Num)
        ensures
            r == self.elems()[0],
    {
        self.get(0)
    }

    /// The second component.
    pub fn y(&self) -> (r: Num)
        ensures
            r == self.elems()[1],
    {
        self.get(1)
    }

    /// The third component.
    pub fn z(&self) -> (r: Num)
        ensures
            r == self.elems()[2],
    {
        self.get(2)
    }

    /// The fourth component.
    pub fn w(&self) -> (r: Num)
        ensures
            r == self.elems()[3],
    {
        self.get(3)
    }
}

impl Matrix2 {
    /// The matrix's scalars, in column-major order: the element at row `r`,
    /// column `c` is scalar `c * 2 + r`.
    pub open spec fn elems(&self) -> Seq<Num> {
        smatrix2_elems(self.data)
    }

    /// Builds a 2x2 matrix from its elements given in row-major order.
    pub fn new(
        m11: Num,
        m12: Num,
        m21: Num,
        m22: Num,
    ) -> (r: Self)
        ensures
            r.elems() == seq![
            m11,
            m21,
            m12,
            m22,
        ],
    {
        MultiArray::from_inner(sm2_new(
            m11,
            m12,
            m21,
            m22,
        ))
    }

    /// The zero matrix.
    pub fn zeros() -> (r: Self)
        ensures
            r.elems() == Seq::new(4, |i: int| 0 as Num),
    {
        let r = MultiArray::from_inner(sm2_zeros());
        proof {
            assert(r.elems() =~= Seq::new(4, |i: int| 0 as Num));
        }
        r
    }

    /// The identity matrix: ones on the diagonal, zeros elsewhere.
    pub fn identity() -> (r: Self)
        ensures
            r.elems() == Seq::new(
                4,
                |i: int| if i % 2 == i / 2 { 1 as Num } else { 0 as Num },
            ),
    {
        let r = MultiArray::from_inner(sm2_identity());
        proof {
            assert(r.elems() =~= Seq::new(
                4,
                |i: int| if i % 2 == i / 2 { 1 as Num } else { 0 as Num },
            ));
        }
        r
    }

    /// Builds a matrix from a flat scalar slice in column-major order, whose
    /// length must exactly match the element count.
    pub fn from_slice(data: &[Num]) -> (r: Self)
        requires
            data@.len() == 4,
        ensures
            r.elems() == data@,
    {
        let r = MultiArray::from_inner(sm2_from_slice(data));
        proof {
            assert(data@.take(4) =~= data@);
        }
        r
    }

    /// Builds a matrix from a flat scalar slice, or fails with
    /// `InsufficientData` exactly when the slice's length does not match the
    /// element count.
    pub fn try_from_slice(data: &[Num]) -> (r: Result<Self, CoreError>)
        ensures
            data@.len() == 4 ==> (r matches Ok(m) && m.elems() == data@),
            data@.len() != 4 ==> r == Err::<Self, CoreError>(CoreError::InsufficientData),
    {
        if data.len() == 4 {
            Ok(Self::from_slice(data))
        } else {
            Err(CoreError::InsufficientData)
        }
    }

    /// The number of rows.
    pub fn nrows(&self) -> (r: usize)
        ensures
            r == 2,
    {
        2
    }

    /// The number of columns.
    pub fn ncols(&self) -> (r: usize)
        ensures
            r == 2,
    {
        2
    }

    /// Returns the scalar at linear index `i`, in column-major order.
    pub fn get(&self, i: usize) -> (r: Num)
        requires
            i < 4,
        ensures
            r == self.elems()[i as int],
    {
        sm2_get(&self.data, i)
    }

    /// Returns the scalar at linear index `i`, or `IndexOutOfBounds` exactly
    /// when `i` is at least the element count.
    pub fn try_get(&self, i: usize) -> (r: Result<Num, CoreError>)
        ensures
            i < 4 ==> r == Ok::<Num, CoreError>(self.elems()[i as int]),
            i >= 4 ==> r == Err::<Num, CoreError>(CoreError::IndexOutOfBounds),
    {
        if i < 4 {
            Ok(self.get(i))
        } else {
            Err(CoreError::IndexOutOfBounds)
        }
    }
}

impl Matrix4 {
    /// The matrix's scalars, in column-major order: the element at row `r`,
    /// column `c` is scalar `c * 4 + r`.
    pub open spec fn elems(&self) -> Seq<Num> {
        smatrix4_elems(self.data)
    }

    /// Builds a 4x4 matrix from its elements given in row-major order.
    pub fn new(
        m11: Num,
        m12: Num,
        m13: Num,
        m14: Num,
        m21: Num,
        m22: Num,
        m23: Num,
        m24: Num,
        m31: Num,
        m32: Num,
        m33: Num,
        m34: Num,
        m41: Num,
        m42: Num,
        m43: Num,
        m44: Num,
    ) -> (r: Self)
        ensures
            r.elems() == seq![
            m11,
            m21,
            m31,
            m41,
            m12,
            m22,
            m32,
            m42,
            m13,
            m23,
            m33,
            m43,
            m14,
            m24,
            m34,
            m44,
        ],
    {
        MultiArray::from_inner(sm4_new(
            m11,
            m12,
            m13,
            m14,
            m21,
            m22,
            m23,
            m24,
            m31,
            m32,
            m33,
            m34,
            m41,
            m42,
            m43,
            m44,
        ))
    }

    /// The zero matrix.
    pub fn zeros() -> (r: Self)
        ensures
            r.elems() == Seq::new(16, |i: int| 0 as Num),
    {
        let r = MultiArray::from_inner(sm4_zeros());
        proof {
            assert(r.elems() =~= Seq::new(16, |i: int| 0 as Num));
        }
        r
    }

    /// The identity matrix: ones on the diagonal, zeros elsewhere.
    pub fn identity() -> (r: Self)
        ensures
            r.elems() == Seq::new(
                16,
                |i: int| if i % 4 == i / 4 { 1 as Num } else { 0 as Num },
            ),
    {
        let r = MultiArray::from_inner(sm4_identity());
        proof {
            assert(r.elems() =~= Seq::new(
                16,
                |i: int| if i % 4 == i / 4 { 1 as Num } else { 0 as Num },
            ));
        }
        r
    }

    /// Builds a matrix from a flat scalar slice in column-major order, whose
    /// length must exactly match the element count.
    pub fn from_slice(data: &[Num]) -> (r: Self)
        requires
            data@.len() == 16,
        ensures
            r.elems() == data@,
    {
        let r = MultiArray::from_inner(sm4_from_slice(data));
        proof {
            assert(data@.take(16) =~= data@);
        }
        r
    }

    /// Builds a matrix from a flat scalar slice, or fails with
    /// `InsufficientData` exactly when the slice's length does not match the
    /// element count.
    pub fn try_from_slice(data: &[Num]) -> (r: Result<Self, CoreError>)
        ensures
            data@.len() == 16 ==> (r matches Ok(m) && m.elems() == data@),
            data@.len() != 16 ==> r == Err::<Self, CoreError>(CoreError::InsufficientData),
    {
        if data.len() == 16 {
            Ok(Self::from_slice(data))
        } else {
            Err(CoreError::InsufficientData)
        }
    }

    /// The number of rows.
    pub fn nrows(&self) -> (r: usize)
        ensures
            r == 4,
    {
        4
    }

    /// The number of columns.
    pub fn ncols(&self) -> (r: usize)
        ensures
            r == 4,
    {
        4
    }

    /// Returns the scalar at linear index `i`, in column-major order.
    pub fn get(&self, i: usize) -> (r: Num)
        requires
            i < 16,
        ensures
            r == self.elems()[i as int],
    {
        sm4_get(&self.data, i)
    }

    /// Returns the scalar at linear index `i`, or `IndexOutOfBounds` exactly
    /// when `i` is at least the element count.
    pub fn try_get(&self, i: usize) -> (r: Result<Num, CoreError>)
        ensures
            i < 16 ==> r == Ok::<Num, CoreError>(self.elems()[i as int]),
            i >= 16 ==> r == Err::<Num, CoreError>(CoreError::IndexOutOfBounds),
    {
        if i < 16 {
            Ok(self.get(i))
        } else {
            Err(CoreError::IndexOutOfBounds)
        }
    }
}

/// A 4-vector is a four-component aggregate: its scalars are its
/// components in natural order.
impl FieldElement for Vector4 {
    type Scalar = Num;

    open spec fn spec_components() -> nat {
        4
    }

    open spec fn scalars(&self) -> Seq<Num> {
        self.elems()
    }

    proof fn components_positive() {
    }

    proof fn scalars_len(&self) {
    }

    fn components() -> (r: usize) {
        4
    }

    fn component(&self, i: usize) -> (r: Num) {
        self.get(i)
    }

    fn from_scalars(data: &[Num]) -> (r: Self) {
        MultiArray::from_inner(sv4_from_slice(data))
    }
}

/// A 4x4 matrix is a sixteen-component aggregate: its scalars are its
/// elements in column-major order, matching the backend's native linearization.
impl FieldElement for Matrix4 {
    type Scalar = Num;

    open spec fn spec_components() -> nat {
        16
    }

    open spec fn scalars(&self) -> Seq<Num> {
        self.elems()
    }

    proof fn components_positive() {
    }

    proof fn scalars_len(&self) {
    }

    fn components() -> (r: usize) {
        16
    }

    fn component(&self, i: usize) -> (r: Num) {
        self.get(i)
    }

    fn from_scalars(data: &[Num]) -> (r: Self) {
        MultiArray::from_inner(sm4_from_slice(data))
    }
}

/// A 3-vector is a three-component aggregate: its scalars are its
/// components in natural order.
impl FieldElement for Vector3 {
    type Scalar = Num;

    open spec fn spec_components() -> nat {
        3
    }

    open spec fn scalars(&self) -> Seq<Num> {
        self.elems()
    }

    proof fn components_positive() {
    }

    proof fn scalars_len(&self) {
    }

    fn components() -> (r: usize) {
        3
    }

    fn component(&self, i: usize) -> (r: Num) {
        self.get(i)
    }

    fn from_scalars(data: &[Num]) -> (r: Self) {
        MultiArray::from_inner(sv3_from_slice(data))
    }
}

/// A 3x3 matrix is a nine-component aggregate: its scalars are its elements
/// in column-major order, matching the backend's native linearization.
impl FieldElement for Matrix3 {
    type Scalar = Num;

    open spec fn spec_components() -> nat {
        9
    }

    open spec fn scalars(&self) -> Seq<Num> {
        self.elems()
    }

    proof fn components_positive() {
    }

    proof fn scalars_len(&self) {
    }

    fn components() -> (r: usize) {
        9
    }

    fn component(&self, i: usize) -> (r: Num) {
        self.get(i)
    }

    fn from_scalars(data: &[Num]) -> (r: Self) {
        MultiArray::from_inner(sm3_from_slice(data))
    }
}

impl RawStorage<Num> for DynVectorStore {
    open spec fn contents(&self) -> Seq<Num> {
        dvector_elems(*self)
    }

    fn len(&self) -> (r: usize) {
        dv_as_slice(self).len()
    }

    fn is_empty(&self) -> (r: bool) {
        dv_as_slice(self).len() == 0
    }
}

impl DenseRawStorage<Num> for DynVectorStore {
    fn as_slice(&self) -> (r: &[Num]) {
        dv_as_slice(self)
    }
}

impl RawStorage<Num> for DynMatrixStore {
    open spec fn contents(&self) -> Seq<Num> {
        dmatrix_elems(*self)
    }

    fn len(&self) -> (r: usize) {
        dm_as_slice(self).len()
    }

    fn is_empty(&self) -> (r: bool) {
        dm_as_slice(self).len() == 0
    }
}

impl DenseRawStorage<Num> for DynMatrixStore {
    fn as_slice(&self) -> (r: &[Num]) {
        dm_as_slice(self)
    }
}

impl DynVector {
    /// The vector's scalars, in natural index order.
    pub open spec fn elems(&self) -> Seq<Num> {
        dvector_elems(self.data)
    }

    /// A vector of `n` zeros.
    pub fn zeros(n: usize) -> (r: Self)
        ensures
            r.elems() == Seq::new(n as nat, |i: int| 0 as Num),
    {
        MultiArray::from_inner(dv_zeros(n))
    }

    /// Builds a vector holding exactly the scalars of the slice.
    pub fn from_slice(data: &[Num]) -> (r: Self)
        ensures
            r.elems() == data@,
    {
        MultiArray::from_inner(dv_from_slice(data))
    }

    /// The number of components.
    pub fn dim(&self) -> (r: usize)
        ensures
            r as nat == self.elems().len(),
    {
        dv_as_slice(&self.data).len()
    }

    /// Returns the component at `i`.
    pub fn get(&self, i: usize) -> (r: Num)
        requires
            (i as nat) < self.elems().len(),
        ensures
            r == self.elems()[i as int],
    {
        dv_get(&self.data, i)
    }

    /// Returns the component at `i`, or `IndexOutOfBounds` exactly when `i`
    /// is at least the component count.
    pub fn try_get(&self, i: usize) -> (r: Result<Num, CoreError>)
        ensures
            (i as nat) < self.elems().len() ==> r == Ok::<Num, CoreError>(self.elems()[i as int]),
            (i as nat) >= self.elems().len() ==> r == Err::<Num, CoreError>(
                CoreError::IndexOutOfBounds,
            ),
    {
        if i < self.dim() {
            Ok(self.get(i))
        } else {
            Err(CoreError::IndexOutOfBounds)
        }
    }
}

/// The column-major scalars of the product of a column-major `ar` by `br`
/// matrix `a` and a column-major `br` by `bc` matrix `b`.
pub open spec fn dyn_mul_scalars(a: Seq<Num>, ar: nat, b: Seq<Num>, br: nat, bc: nat) -> Seq<Num> {
    Seq::new(
        ar * bc,
        |i: int|
            dmat_dot(a, ar as int, b, br as int, i % (ar as int), i / (ar as int), br as int) as Num,
    )
}

impl DynMatrix {
    /// The matrix's scalars, in column-major order.
    pub open spec fn elems(&self) -> Seq<Num> {
        dmatrix_elems(self.data)
    }

    /// The number of rows.
    pub open spec fn spec_nrows(&self) -> nat {
        dmatrix_nrows(self.data)
    }

    /// The number of columns.
    pub open spec fn spec_ncols(&self) -> nat {
        dmatrix_ncols(self.data)
    }

    /// An `nrows` by `ncols` matrix of zeros.
    pub fn zeros(nrows: usize, ncols: usize) -> (r: Self)
        requires
            (nrows as int) * (ncols as int) <= usize::MAX,
        ensures
            r.spec_nrows() == nrows,
            r.spec_ncols() == ncols,
            r.elems() == Seq::new((nrows * ncols) as nat, |i: int| 0 as Num),
    {
        MultiArray::from_inner(dm_zeros(nrows, ncols))
    }

    /// Builds an `nrows` by `ncols` matrix from a column-major slice, whose
    /// length must exactly match the element count.
    pub fn from_slice(data: &[Num], nrows: usize, ncols: usize) -> (r: Self)
        requires
            (nrows as int) * (ncols as int) == data@.len(),
        ensures
            r.spec_nrows() == nrows,
            r.spec_ncols() == ncols,
            r.elems() == data@,
    {
        MultiArray::from_inner(dm_from_slice(nrows, ncols, data))
    }

    /// Builds an `nrows` by `ncols` matrix from a column-major slice, or
    /// fails with `InsufficientData` exactly when the slice's length does
    /// not match the element count.
    pub fn try_from_slice(data: &[Num], nrows: usize, ncols: usize) -> (r: Result<
        Self,
        CoreError,
    >)
        ensures
            data@.len() == (nrows as int) * (ncols as int) ==> (r matches Ok(m)
                && m.spec_nrows() == nrows && m.spec_ncols() == ncols && m.elems() == data@),
            data@.len() != (nrows as int) * (ncols as int) ==> r == Err::<Self, CoreError>(
                CoreError::InsufficientData,
            ),
    {
        let dlen = data.len();
        match nrows.checked_mul(ncols) {
            Some(total) => {
                if total == dlen {
                    let r = Self::from_slice(data, nrows, ncols);
                    Ok(r)
                } else {
                    Err(CoreError::InsufficientData)
                }
            },
            None => {
                // The element count exceeds the address space, so no slice
                // can match it.
                Err(CoreError::InsufficientData)
            },
        }
    }

    /// The number of rows.
    pub fn nrows(&self) -> (r: usize)
        ensures
            r as nat == self.spec_nrows(),
    {
        dm_nrows(&self.data)
    }

    /// The number of columns.
    pub fn ncols(&self) -> (r: usize)
        ensures
            r as nat == self.spec_ncols(),
    {
        dm_ncols(&self.data)
    }

    /// Returns the scalar at linear index `i`, in column-major order.
    pub fn get(&self, i: usize) -> (r: Num)
        requires
            (i as nat) < self.elems().len(),
        ensures
            r == self.elems()[i as int],
    {
        dm_get(&self.data, i)
    }

    /// Returns the scalar at linear index `i`, or `IndexOutOfBounds` exactly
    /// when `i` is at least the element count.
    pub fn try_get(&self, i: usize) -> (r: Result<Num, CoreError>)
        ensures
            (i as nat) < self.elems().len() ==> r == Ok::<Num, CoreError>(self.elems()[i as int]),
            (i as nat) >= self.elems().len() ==> r == Err::<Num, CoreError>(
                CoreError::IndexOutOfBounds,
            ),
    {
        if i < dm_as_slice(&self.data).len() {
            Ok(self.get(i))
        } else {
            Err(CoreError::IndexOutOfBounds)
        }
    }

    /// Matrix multiplication with the runtime shape check: fails with
    /// `DimensionMismatch` exactly when the left operand's inner dimension
    /// does not equal the right operand's outer dimension. On matching
    /// shapes, every element of both operands must be of small magnitude
    /// and the result must be addressable.
    pub fn try_mul(&self, other: &DynMatrix) -> (r: Result<DynMatrix, CoreError>)
        requires
            self.spec_ncols() == other.spec_nrows() ==> {
                &&& self.spec_ncols() <= 0x10_0000
                &&& self.spec_nrows() * other.spec_ncols() <= usize::MAX
                &&& forall|i: int|
                    0 <= i < self.elems().len() ==> dyn_mag(#[trigger] self.elems()[i] as int)
                &&& forall|i: int|
                    0 <= i < other.elems().len() ==> dyn_mag(#[trigger] other.elems()[i] as int)
            },
        ensures
            self.spec_ncols() == other.spec_nrows() ==> (r matches Ok(m) && m.spec_nrows()
                == self.spec_nrows() && m.spec_ncols() == other.spec_ncols() && m.elems()
                == dyn_mul_scalars(
                self.elems(),
                self.spec_nrows(),
                other.elems(),
                other.spec_nrows(),
                other.spec_ncols(),
            )),
            self.spec_ncols() != other.spec_nrows() ==> r == Err::<DynMatrix, CoreError>(
                CoreError::DimensionMismatch,
            ),
    {
        if self.ncols() != other.nrows() {
            return Err(CoreError::DimensionMismatch);
        }
        proof {
            assert forall|i: int|
                0 <= i < self.spec_nrows() * self.spec_ncols() implies dyn_mag(
                #[trigger] super::backend::dmatrix_elem(self.data, i) as int,
            ) by {
                assert(self.elems()[i] == super::backend::dmatrix_elem(self.data, i));
            }
            assert forall|i: int|
                0 <= i < other.spec_nrows() * other.spec_ncols() implies dyn_mag(
                #[trigger] super::backend::dmatrix_elem(other.data, i) as int,
            ) by {
                assert(other.elems()[i] == super::backend::dmatrix_elem(other.data, i));
            }
        }
        let m = MultiArray::from_inner(dm_mul(&self.data, &other.data));
        proof {
            assert(m.elems() =~= dyn_mul_scalars(
                self.elems(),
                self.spec_nrows(),
                other.elems(),
                other.spec_nrows(),
                other.spec_ncols(),
            ));
        }
        Ok(m)
    }
}

} // verus!
