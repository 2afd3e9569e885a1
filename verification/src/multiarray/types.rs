//! Shape descriptors, backend storage contracts, and the core array struct.

use vstd::prelude::*;
use core::marker::PhantomData;

verus! {

/// Describes the dimensionality of a multi-dimensional array.
///
/// Each shape type is a zero-sized struct encoding tensor rank and, for
/// static shapes, the dimensions.
pub trait Shape {
    /// Tensor rank: 1 for vectors, 2 for matrices.
    spec fn rank() -> nat;

    /// Total element count; `None` if determined at runtime.
    spec fn size() -> Option<nat>;

    /// The tensor rank as a runtime value.
    fn rank_val() -> (r: usize)
        ensures
            r as nat == Self::rank(),
    ;
}

/// Shape for a static rank-1 array (vector) of dimension `N`.
#[derive(Clone, Copy, Debug, PartialEq, Eq)]
pub struct Rank1<const N: usize>;

impl<const N: usize> Shape for Rank1<N> {
    open spec fn rank() -> nat {
        1
    }

    open spec fn size() -> Option<nat> {
        Some(N as nat)
    }

    fn rank_val() -> (r: usize) {
        1
    }
}

/// Shape for a static rank-2 array (matrix) of dimensions `R` x `C`.
#[derive(Clone, Copy, Debug, PartialEq, Eq)]
pub struct Rank2<const R: usize, const C: usize>;

impl<const R: usize, const C: usize> Shape for Rank2<R, C> {
    open spec fn rank() -> nat {
        2
    }

    open spec fn size() -> Option<nat> {
        Some((R * C) as nat)
    }

    fn rank_val() -> (r: usize) {
        2
    }
}

/// Shape for a dynamic rank-1 array (vector with runtime length).
#[derive(Clone, Copy, Debug, PartialEq, Eq, Structural)]
pub struct DynRank1;

impl Shape for DynRank1 {
    open spec fn rank() -> nat {
        1
    }

    open spec fn size() -> Option<nat> {
        None
    }

    fn rank_val() -> (r: usize) {
        1
    }
}

/// Shape for a dynamic rank-2 array (matrix with runtime dimensions).
#[derive(Clone, Copy, Debug, PartialEq, Eq, Structural)]
pub struct DynRank2;

impl Shape for DynRank2 {
    open spec fn rank() -> nat {
        2
    }

    open spec fn size() -> Option<nat> {
        None
    }

    fn rank_val() -> (r: usize) {
        2
    }
}

/// Base backend storage contract: every backend exposes its element count
/// and its contents, in the backend's native linearization (column-major
/// for matrices, natural index order for vectors).
pub trait RawStorage<T> {
    /// The stored elements, in the backend's native linearization.
    spec fn contents(&self) -> Seq<T>;

    /// Returns the number of stored elements.
    fn len(&self) -> (r: usize)
        ensures
            r as nat == self.contents().len(),
    ;

    /// Returns `true` if no element is stored.
    fn is_empty(&self) -> (r: bool)
        ensures
            r <==> self.contents().len() == 0,
    ;
}

/// Dense backend contract: the contents occupy contiguous memory and can be
/// borrowed as one flat slice.
pub trait DenseRawStorage<T>: RawStorage<T> {
    /// Borrows the full contiguous element sequence.
    fn as_slice(&self) -> (r: &[T])
        ensures
            r@ == self.contents(),
    ;
}

/// Relies on `Clone` of std's `PhantomData`, a zero-sized marker with a
/// single value: the clone equals the original.
pub assume_specification<T>[ <PhantomData<T> as Clone>::clone ](v: &PhantomData<T>) -> (r:
    PhantomData<T>)
    where
        T: core::marker::PointeeSized,
    ensures
        r == *v,
;

/// A generic N-dimensional array value.
///
/// # Type parameters
/// - `T`: element scalar type
/// - `S`: shape, encoding tensor rank and dimensions
/// - `B`: backend, the storage value the array wraps
///
/// The array owns exactly its backend value and nothing else, so a
/// collection of arrays is laid out exactly as the collection of their
/// backend values. Users interact with the type aliases (`Vector3`,
/// `Matrix3`) rather than this struct directly.
#[derive(Clone, Copy, Debug, PartialEq)]
pub struct MultiArray<T, S, B> {
    /// The wrapped backend storage value.
    pub data: B,
    /// Zero-sized marker for the scalar type and the shape.
    pub marker: PhantomData<(T, S)>,
}

impl<T, S, B> MultiArray<T, S, B> {
    /// Wraps a raw backend value.
    pub fn from_inner(inner: B) -> (r: Self)
        ensures
            r.data == inner,
    {
        MultiArray { data: inner, marker: PhantomData }
    }

    /// Unwraps into the raw backend value.
    pub fn into_inner(self) -> (r: B)
        ensures
            r == self.data,
    {
        self.data
    }

    /// Borrows the raw backend value.
    pub fn as_inner(&self) -> (r: &B)
        ensures
            *r == self.data,
    {
        &self.data
    }
}

/// Base contract for any multi-dimensional array, dense or sparse.
pub trait MultiArrayOps<T> {
    /// The array's elements, in the backend's native linearization.
    spec fn spec_contents(&self) -> Seq<T>;

    /// The tensor rank.
    spec fn spec_rank() -> nat;

    /// Returns the total number of elements.
    fn len(&self) -> (r: usize)
        ensures
            r as nat == self.spec_contents().len(),
    ;

    /// Returns `true` if the array contains no elements.
    fn is_empty(&self) -> (r: bool)
        ensures
            r <==> self.spec_contents().len() == 0,
    ;

    /// Returns the tensor rank: 1 for vectors, 2 for matrices.
    fn rank(&self) -> (r: usize)
        ensures
            r as nat == Self::spec_rank(),
    ;
}

impl<T, S: Shape, B: RawStorage<T>> MultiArrayOps<T> for MultiArray<T, S, B> {
    open spec fn spec_contents(&self) -> Seq<T> {
        self.data.contents()
    }

    open spec fn spec_rank() -> nat {
        S::rank()
    }

    fn len(&self) -> (r: usize) {
        self.data.len()
    }

    fn is_empty(&self) -> (r: bool) {
        self.data.is_empty()
    }

    fn rank(&self) -> (r: usize) {
        S::rank_val()
    }
}

/// Dense specialisation: contiguous memory access. Implemented when the
/// backend provides contiguous storage; a sparse backend would not
/// implement it.
pub trait DenseMultiArrayOps<T>: MultiArrayOps<T> {
    /// Borrows the full contiguous element sequence.
    fn as_slice(&self) -> (r: &[T])
        ensures
            r@ == self.spec_contents(),
    ;
}

impl<T, S: Shape, B: DenseRawStorage<T>> DenseMultiArrayOps<T> for MultiArray<T, S, B> {
    fn as_slice(&self) -> (r: &[T]) {
        self.data.as_slice()
    }
}

/// Marker contract guaranteeing that the full arithmetic operator bundle
/// (element-wise addition, subtraction, negation, scalar multiplication and
/// division, and their in-place equivalents) is available for the array
/// type, so that generic code can require one bound instead of enumerating
/// the operators.
pub trait NumericMultiArrayOps<T>: MultiArrayOps<T> {

}

} // verus!
