//! Extension traits for domain-specific linear algebra operations.
//!
//! These traits provide method syntax for operations like `dot`, `cross`
//! and `transpose` without widening the core array contract: each is a
//! separate capability, since none of them applies uniformly to every
//! shape.

use vstd::prelude::*;
use super::aliases::Matrix3;
use super::aliases::Vector2;
use super::aliases::Vector3;
use super::backend::small_mag;
use super::backend::smatrix3_elem;
use super::backend::sm3_hadamard;
use super::backend::sm3_transpose;
use super::backend::svector3_elem;
use super::backend::sv3_cross;
use super::backend::sv3_dot;
use super::backend::sv3_hadamard;
use super::backend::sv3_outer;
use super::types::MultiArray;
use crate::common::Num;

verus! {

/// Vector-specific operations, for rank-1 types only.
pub trait VectorOps<T> {
    /// Inputs accepted by the inner product.
    spec fn dot_req(&self, other: &Self) -> bool;

    /// The inner product's value.
    spec fn dot_spec(&self, other: &Self) -> T;

    /// Inner product.
    fn dot(&self, other: &Self) -> (r: T)
        requires
            self.dot_req(other),
        ensures
            r == self.dot_spec(other),
    ;

    /// Squared Euclidean norm: the inner product of the vector with itself.
    fn norm_squared(&self) -> (r: T)
        requires
            self.dot_req(self),
        ensures
            r == self.dot_spec(self),
    ;
}

impl VectorOps<Num> for Vector3 {
    open spec fn dot_req(&self, other: &Self) -> bool {
        &&& forall|i: int| 0 <= i < 3 ==> small_mag(#[trigger] self.elems()[i] as int)
        &&& forall|i: int| 0 <= i < 3 ==> small_mag(#[trigger] other.elems()[i] as int)
    }

    open spec fn dot_spec(&self, other: &Self) -> Num {
        (self.elems()[0] * other.elems()[0] + self.elems()[1] * other.elems()[1] + self.elems()[2]
            * other.elems()[2]) as Num
    }

    fn dot(&self, other: &Self) -> (r: Num) {
        proof {
            assert forall|i: int| 0 <= i < 3 implies small_mag(
                #[trigger] svector3_elem(self.data, i) as int,
            ) by {
                assert(self.elems()[i] == svector3_elem(self.data, i));
            }
            assert forall|i: int| 0 <= i < 3 implies small_mag(
                #[trigger] svector3_elem(other.data, i) as int,
            ) by {
                assert(other.elems()[i] == svector3_elem(other.data, i));
            }
        }
        let r = sv3_dot(&self.data, &other.data);
        proof {
            assert(small_mag(self.elems()[0] as int) && small_mag(other.elems()[0] as int)
                && small_mag(self.elems()[1] as int) && small_mag(other.elems()[1] as int)
                && small_mag(self.elems()[2] as int) && small_mag(other.elems()[2] as int));
        }
        r
    }

    fn norm_squared(&self) -> (r: Num) {
        self.dot(self)
    }
}

/// Cross product; the output type varies by dimension, so this stands apart
/// from the general vector contract.
pub trait CrossProduct<T> {
    type Output;

    /// Inputs accepted by the cross product.
    spec fn cross_req(&self, other: &Self) -> bool;

    /// The scalars carried by one output value.
    spec fn output_scalars(o: Self::Output) -> Seq<T>;

    /// The scalars of the cross product.
    spec fn cross_scalars(&self, other: &Self) -> Seq<T>;

    /// Cross product.
    fn cross(&self, other: &Self) -> (r: Self::Output)
        requires
            self.cross_req(other),
        ensures
            Self::output_scalars(r) == self.cross_scalars(other),
    ;
}

impl CrossProduct<Num> for Vector3 {
    type Output = Vector3;

    open spec fn cross_req(&self, other: &Self) -> bool {
        &&& forall|i: int| 0 <= i < 3 ==> small_mag(#[trigger] self.elems()[i] as int)
        &&& forall|i: int| 0 <= i < 3 ==> small_mag(#[trigger] other.elems()[i] as int)
    }

    open spec fn output_scalars(o: Vector3) -> Seq<Num> {
        o.elems()
    }

    open spec fn cross_scalars(&self, other: &Self) -> Seq<Num> {
        seq![
            (self.elems()[1] * other.elems()[2] - self.elems()[2] * other.elems()[1]) as Num,
            (self.elems()[2] * other.elems()[0] - self.elems()[0] * other.elems()[2]) as Num,
            (self.elems()[0] * other.elems()[1] - self.elems()[1] * other.elems()[0]) as Num,
        ]
    }

    fn cross(&self, other: &Self) -> (r: Vector3) {
        proof {
            assert forall|i: int| 0 <= i < 3 implies small_mag(
                #[trigger] svector3_elem(self.data, i) as int,
            ) by {
                assert(self.elems()[i] == svector3_elem(self.data, i));
            }
            assert forall|i: int| 0 <= i < 3 implies small_mag(
                #[trigger] svector3_elem(other.data, i) as int,
            ) by {
                assert(other.elems()[i] == svector3_elem(other.data, i));
            }
        }
        let r = MultiArray::from_inner(sv3_cross(&self.data, &other.data));
        proof {
            assert(r.elems() =~= self.cross_scalars(other));
        }
        r
    }
}

/// The planar cross product embeds into three dimensions: the product of
/// two 2-vectors is the scaled basis vector orthogonal to their plane.
impl CrossProduct<Num> for Vector2 {
    type Output = Vector3;

    open spec fn cross_req(&self, other: &Self) -> bool {
        &&& forall|i: int| 0 <= i < 2 ==> small_mag(#[trigger] self.elems()[i] as int)
        &&& forall|i: int| 0 <= i < 2 ==> small_mag(#[trigger] other.elems()[i] as int)
    }

    open spec fn output_scalars(o: Vector3) -> Seq<Num> {
        o.elems()
    }

    open spec fn cross_scalars(&self, other: &Self) -> Seq<Num> {
        seq![
            0 as Num,
            0 as Num,
            (self.elems()[0] * other.elems()[1] - self.elems()[1] * other.elems()[0]) as Num,
        ]
    }

    fn cross(&self, other: &Self) -> (r: Vector3) {
        let a0 = self.get(0);
        let a1 = self.get(1);
        let b0 = other.get(0);
        let b1 = other.get(1);
        proof {
            assert(small_mag(self.elems()[0] as int) && small_mag(self.elems()[1] as int)
                && small_mag(other.elems()[0] as int) && small_mag(other.elems()[1] as int));
            assert(i64::MIN <= a0 * b1 <= i64::MAX && i64::MIN <= a1 * b0 <= i64::MAX && i64::MIN
                <= a0 * b1 - a1 * b0 <= i64::MAX) by (nonlinear_arith)
                requires
                    small_mag(a0 as int),
                    small_mag(a1 as int),
                    small_mag(b0 as int),
                    small_mag(b1 as int),
            ;
        }
        let z = a0 * b1 - a1 * b0;
        let r = Vector3::new(0, 0, z);
        proof {
            assert(r.elems() =~= self.cross_scalars(other));
        }
        r
    }
}

/// Outer product: produces a matrix from two vectors.
pub trait OuterProduct<T, Rhs> {
    type Output;

    /// Inputs accepted by the outer product.
    spec fn outer_req(&self, other: &Rhs) -> bool;

    /// The scalars carried by one output value.
    spec fn output_scalars(o: Self::Output) -> Seq<T>;

    /// The scalars of the outer product, in the output's linearization.
    spec fn outer_scalars(&self, other: &Rhs) -> Seq<T>;

    /// Outer product.
    fn outer(&self, other: &Rhs) -> (r: Self::Output)
        requires
            self.outer_req(other),
        ensures
            Self::output_scalars(r) == self.outer_scalars(other),
    ;
}

impl OuterProduct<Num, Vector3> for Vector3 {
    type Output = Matrix3;

    open spec fn outer_req(&self, other: &Vector3) -> bool {
        &&& forall|i: int| 0 <= i < 3 ==> small_mag(#[trigger] self.elems()[i] as int)
        &&& forall|i: int| 0 <= i < 3 ==> small_mag(#[trigger] other.elems()[i] as int)
    }

    open spec fn output_scalars(o: Matrix3) -> Seq<Num> {
        o.elems()
    }

    open spec fn outer_scalars(&self, other: &Vector3) -> Seq<Num> {
        Seq::new(9, |i: int| (self.elems()[i % 3] * other.elems()[i / 3]) as Num)
    }

    fn outer(&self, other: &Vector3) -> (r: Matrix3) {
        proof {
            assert forall|i: int| 0 <= i < 3 implies small_mag(
                #[trigger] svector3_elem(self.data, i) as int,
            ) by {
                assert(self.elems()[i] == svector3_elem(self.data, i));
            }
            assert forall|i: int| 0 <= i < 3 implies small_mag(
                #[trigger] svector3_elem(other.data, i) as int,
            ) by {
                assert(other.elems()[i] == svector3_elem(other.data, i));
            }
        }
        let r = MultiArray::from_inner(sv3_outer(&self.data, &other.data));
        proof {
            assert(r.elems() =~= self.outer_scalars(other));
        }
        r
    }
}

/// Element-wise (Hadamard) product: one shape-generic operation requiring
/// only dense storage and multiplication of the scalars.
pub trait Hadamard<T>: Sized {
    /// Inputs accepted by the product.
    spec fn had_req(&self, other: &Self) -> bool;

    /// The scalars carried by one value.
    spec fn value_scalars(v: &Self) -> Seq<T>;

    /// The scalars of the element-wise product.
    spec fn had_scalars(&self, other: &Self) -> Seq<T>;

    /// Element-wise product.
    fn hadamard(&self, other: &Self) -> (r: Self)
        requires
            self.had_req(other),
        ensures
            Self::value_scalars(&r) == self.had_scalars(other),
    ;
}

impl Hadamard<Num> for Vector3 {
    open spec fn had_req(&self, other: &Self) -> bool {
        &&& forall|i: int| 0 <= i < 3 ==> small_mag(#[trigger] self.elems()[i] as int)
        &&& forall|i: int| 0 <= i < 3 ==> small_mag(#[trigger] other.elems()[i] as int)
    }

    open spec fn value_scalars(v: &Self) -> Seq<Num> {
        v.elems()
    }

    open spec fn had_scalars(&self, other: &Self) -> Seq<Num> {
        Seq::new(3, |i: int| (self.elems()[i] * other.elems()[i]) as Num)
    }

    fn hadamard(&self, other: &Self) -> (r: Self) {
        proof {
            assert forall|i: int| 0 <= i < 3 implies small_mag(
                #[trigger] svector3_elem(self.data, i) as int,
            ) by {
                assert(self.elems()[i] == svector3_elem(self.data, i));
            }
            assert forall|i: int| 0 <= i < 3 implies small_mag(
                #[trigger] svector3_elem(other.data, i) as int,
            ) by {
                assert(other.elems()[i] == svector3_elem(other.data, i));
            }
        }
        let r = MultiArray::from_inner(sv3_hadamard(&self.data, &other.data));
        proof {
            assert(r.elems() =~= self.had_scalars(other));
        }
        r
    }
}

impl Hadamard<Num> for Matrix3 {
    open spec fn had_req(&self, other: &Self) -> bool {
        &&& forall|i: int| 0 <= i < 9 ==> small_mag(#[trigger] self.elems()[i] as int)
        &&& forall|i: int| 0 <= i < 9 ==> small_mag(#[trigger] other.elems()[i] as int)
    }

    open spec fn value_scalars(v: &Self) -> Seq<Num> {
        v.elems()
    }

    open spec fn had_scalars(&self, other: &Self) -> Seq<Num> {
        Seq::new(9, |i: int| (self.elems()[i] * other.elems()[i]) as Num)
    }

    fn hadamard(&self, other: &Self) -> (r: Self) {
        proof {
            assert forall|i: int| 0 <= i < 9 implies small_mag(
                #[trigger] smatrix3_elem(self.data, i) as int,
            ) by {
                assert(self.elems()[i] == smatrix3_elem(self.data, i));
            }
            assert forall|i: int| 0 <= i < 9 implies small_mag(
                #[trigger] smatrix3_elem(other.data, i) as int,
            ) by {
                assert(other.elems()[i] == smatrix3_elem(other.data, i));
            }
        }
        let r = MultiArray::from_inner(sm3_hadamard(&self.data, &other.data));
        proof {
            assert(r.elems() =~= self.had_scalars(other));
        }
        r
    }
}

/// Transpose operation.
pub trait Transpose<T> {
    type Output;

    /// The scalars carried by one output value.
    spec fn output_scalars(o: Self::Output) -> Seq<T>;

    /// The scalars of the transpose, in the output's linearization.
    spec fn transpose_scalars(&self) -> Seq<T>;

    /// Transpose.
    fn transpose(&self) -> (r: Self::Output)
        ensures
            Self::output_scalars(r) == self.transpose_scalars(),
    ;
}

impl Transpose<Num> for Matrix3 {
    type Output = Matrix3;

    open spec fn output_scalars(o: Matrix3) -> Seq<Num> {
        o.elems()
    }

    open spec fn transpose_scalars(&self) -> Seq<Num> {
        Seq::new(9, |i: int| self.elems()[(i % 3) * 3 + i / 3])
    }

    fn transpose(&self) -> (r: Matrix3) {
        let r = MultiArray::from_inner(sm3_transpose(&self.data));
        proof {
            assert(r.elems() =~= self.transpose_scalars());
        }
        r
    }
}

} // verus!
