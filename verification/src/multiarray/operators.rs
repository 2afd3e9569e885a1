//! Arithmetic operations on the concrete array instantiations.
//!
//! Only methods are provided; the in-place variants overwrite the receiver
//! without allocating. The element-wise operations require every result to
//! be representable in the configured scalar type.

use vstd::prelude::*;
use super::aliases::Matrix3;
use super::aliases::Vector3;
use super::backend::m3_mul_spec;
use super::backend::m3_mul_vec_spec;
use super::backend::small_mag;
use super::backend::smatrix3_elem;
use super::backend::sm3_add;
use super::backend::sm3_div;
use super::backend::sm3_mul;
use super::backend::sm3_mul_vec;
use super::backend::sm3_neg;
use super::backend::sm3_scale;
use super::backend::sm3_sub;
use super::backend::svector3_elem;
use super::backend::sv3_add;
use super::backend::sv3_div;
use super::backend::sv3_neg;
use super::backend::sv3_scale;
use super::backend::sv3_sub;
use super::types::MultiArray;
use crate::common::Num;
use crate::fields::ops::div_trunc;

verus! {

impl Vector3 {
    /// Component-wise addition. Both operands' element-wise results must be representable.
    pub fn add(&self, other: &Vector3) -> (r: Vector3)
        requires
            forall|i: int|
                0 <= i < 3 ==> i64::MIN <= #[trigger] self.elems()[i] + other.elems()[i]
                    <= i64::MAX,
        ensures
            r.elems().len() == 3,
            forall|i: int|
                0 <= i < 3 ==> #[trigger] r.elems()[i] == self.elems()[i] + other.elems()[i],
    {
        proof {
            assert forall|i: int|
                0 <= i < 3 implies i64::MIN <= #[trigger] svector3_elem(self.data, i) + svector3_elem(
                other.data,
                i,
            ) <= i64::MAX by {
                assert(self.elems()[i] == svector3_elem(self.data, i));
                assert(other.elems()[i] == svector3_elem(other.data, i));
            }
        }
        let r = MultiArray::from_inner(sv3_add(&self.data, &other.data));
        proof {
            assert forall|i: int| 0 <= i < 3 implies #[trigger] r.elems()[i] == self.elems()[i]
                + other.elems()[i] by {
                assert(r.elems()[i] == svector3_elem(r.data, i));
            }
        }
        r
    }

    /// In-place variant of `add`.
    pub fn add_assign(&mut self, other: &Vector3)
        requires
            forall|i: int|
                0 <= i < 3 ==> i64::MIN <= #[trigger] old(self).elems()[i] + other.elems()[i]
                    <= i64::MAX,
        ensures
            final(self).elems().len() == 3,
            forall|i: int|
                0 <= i < 3 ==> #[trigger] final(self).elems()[i] == old(self).elems()[i]
                    + other.elems()[i],
    {
        let r = self.add(other);
        *self = r;
    }

    /// Component-wise subtraction. Both operands' element-wise results must be representable.
    pub fn sub(&self, other: &Vector3) -> (r: Vector3)
        requires
            forall|i: int|
                0 <= i < 3 ==> i64::MIN <= #[trigger] self.elems()[i] - other.elems()[i]
                    <= i64::MAX,
        ensures
            r.elems().len() == 3,
            forall|i: int|
                0 <= i < 3 ==> #[trigger] r.elems()[i] == self.elems()[i] - other.elems()[i],
    {
        proof {
            assert forall|i: int|
                0 <= i < 3 implies i64::MIN <= #[trigger] svector3_elem(self.data, i) - svector3_elem(
                other.data,
                i,
            ) <= i64::MAX by {
                assert(self.elems()[i] == svector3_elem(self.data, i));
                assert(other.elems()[i] == svector3_elem(other.data, i));
            }
        }
        let r = MultiArray::from_inner(sv3_sub(&self.data, &other.data));
        proof {
            assert forall|i: int| 0 <= i < 3 implies #[trigger] r.elems()[i] == self.elems()[i]
                - other.elems()[i] by {
                assert(r.elems()[i] == svector3_elem(r.data, i));
            }
        }
        r
    }

    /// In-place variant of `sub`.
    pub fn sub_assign(&mut self, other: &Vector3)
        requires
            forall|i: int|
                0 <= i < 3 ==> i64::MIN <= #[trigger] old(self).elems()[i] - other.elems()[i]
                    <= i64::MAX,
        ensures
            final(self).elems().len() == 3,
            forall|i: int|
                0 <= i < 3 ==> #[trigger] final(self).elems()[i] == old(self).elems()[i]
                    - other.elems()[i],
    {
        let r = self.sub(other);
        *self = r;
    }

    /// Component-wise negation; every component must be representable
    /// negated.
    pub fn neg(&self) -> (r: Vector3)
        requires
            forall|i: int| 0 <= i < 3 ==> #[trigger] self.elems()[i] > i64::MIN,
        ensures
            r.elems().len() == 3,
            forall|i: int| 0 <= i < 3 ==> #[trigger] r.elems()[i] == -self.elems()[i],
    {
        proof {
            assert forall|i: int| 0 <= i < 3 implies #[trigger] svector3_elem(self.data, i)
                > i64::MIN by {
                assert(self.elems()[i] == svector3_elem(self.data, i));
            }
        }
        let r = MultiArray::from_inner(sv3_neg(&self.data));
        proof {
            assert forall|i: int| 0 <= i < 3 implies #[trigger] r.elems()[i]
                == -self.elems()[i] by {
                assert(r.elems()[i] == svector3_elem(r.data, i));
            }
        }
        r
    }

    /// Scalar multiplication, broadcast to every component.
    pub fn mul_scalar(&self, k: Num) -> (r: Vector3)
        requires
            forall|i: int| 0 <= i < 3 ==> i64::MIN <= #[trigger] self.elems()[i] * k <= i64::MAX,
        ensures
            r.elems().len() == 3,
            forall|i: int| 0 <= i < 3 ==> #[trigger] r.elems()[i] == self.elems()[i] * k,
    {
        proof {
            assert forall|i: int| 0 <= i < 3 implies i64::MIN <= #[trigger] svector3_elem(self.data, i)
                * k <= i64::MAX by {
                assert(self.elems()[i] == svector3_elem(self.data, i));
            }
        }
        let r = MultiArray::from_inner(sv3_scale(&self.data, k));
        proof {
            assert forall|i: int| 0 <= i < 3 implies #[trigger] r.elems()[i] == self.elems()[i]
                * k by {
                assert(r.elems()[i] == svector3_elem(r.data, i));
            }
        }
        r
    }

    /// In-place variant of `mul_scalar`.
    pub fn mul_assign(&mut self, k: Num)
        requires
            forall|i: int|
                0 <= i < 3 ==> i64::MIN <= #[trigger] old(self).elems()[i] * k <= i64::MAX,
        ensures
            final(self).elems().len() == 3,
            forall|i: int|
                0 <= i < 3 ==> #[trigger] final(self).elems()[i] == old(self).elems()[i] * k,
    {
        let r = self.mul_scalar(k);
        *self = r;
    }

    /// Scalar division, broadcast to every component; quotients round
    /// toward zero. The divisor must be nonzero and no quotient may
    /// overflow.
    pub fn div_scalar(&self, k: Num) -> (r: Vector3)
        requires
            k != 0,
            forall|i: int| 0 <= i < 3 ==> !(#[trigger] self.elems()[i] == i64::MIN && k == -1),
        ensures
            r.elems().len() == 3,
            forall|i: int|
                0 <= i < 3 ==> #[trigger] r.elems()[i] == div_trunc(
                    self.elems()[i] as int,
                    k as int,
                ) as Num,
    {
        proof {
            assert forall|i: int| 0 <= i < 3 implies !(#[trigger] svector3_elem(self.data, i)
                == i64::MIN && k == -1) by {
                assert(self.elems()[i] == svector3_elem(self.data, i));
            }
        }
        let r = MultiArray::from_inner(sv3_div(&self.data, k));
        proof {
            assert forall|i: int| 0 <= i < 3 implies #[trigger] r.elems()[i] == div_trunc(
                self.elems()[i] as int,
                k as int,
            ) as Num by {
                assert(r.elems()[i] == svector3_elem(r.data, i));
            }
        }
        r
    }

    /// In-place variant of `div_scalar`.
    pub fn div_assign(&mut self, k: Num)
        requires
            k != 0,
            forall|i: int|
                0 <= i < 3 ==> !(#[trigger] old(self).elems()[i] == i64::MIN && k == -1),
        ensures
            final(self).elems().len() == 3,
            forall|i: int|
                0 <= i < 3 ==> #[trigger] final(self).elems()[i] == div_trunc(
                    old(self).elems()[i] as int,
                    k as int,
                ) as Num,
    {
        let r = self.div_scalar(k);
        *self = r;
    }
}

impl Matrix3 {
    /// Component-wise addition. Both operands' element-wise results must be representable.
    pub fn add(&self, other: &Matrix3) -> (r: Matrix3)
        requires
            forall|i: int|
                0 <= i < 9 ==> i64::MIN <= #[trigger] self.elems()[i] + other.elems()[i]
                    <= i64::MAX,
        ensures
            r.elems().len() == 9,
            forall|i: int|
                0 <= i < 9 ==> #[trigger] r.elems()[i] == self.elems()[i] + other.elems()[i],
    {
        proof {
            assert forall|i: int|
                0 <= i < 9 implies i64::MIN <= #[trigger] smatrix3_elem(self.data, i) + smatrix3_elem(
                other.data,
                i,
            ) <= i64::MAX by {
                assert(self.elems()[i] == smatrix3_elem(self.data, i));
                assert(other.elems()[i] == smatrix3_elem(other.data, i));
            }
        }
        let r = MultiArray::from_inner(sm3_add(&self.data, &other.data));
        proof {
            assert forall|i: int| 0 <= i < 9 implies #[trigger] r.elems()[i] == self.elems()[i]
                + other.elems()[i] by {
                assert(r.elems()[i] == smatrix3_elem(r.data, i));
            }
        }
        r
    }

    /// In-place variant of `add`.
    pub fn add_assign(&mut self, other: &Matrix3)
        requires
            forall|i: int|
                0 <= i < 9 ==> i64::MIN <= #[trigger] old(self).elems()[i] + other.elems()[i]
                    <= i64::MAX,
        ensures
            final(self).elems().len() == 9,
            forall|i: int|
                0 <= i < 9 ==> #[trigger] final(self).elems()[i] == old(self).elems()[i]
                    + other.elems()[i],
    {
        let r = self.add(other);
        *self = r;
    }

    /// Component-wise subtraction. Both operands' element-wise results must be representable.
    pub fn sub(&self, other: &Matrix3) -> (r: Matrix3)
        requires
            forall|i: int|
                0 <= i < 9 ==> i64::MIN <= #[trigger] self.elems()[i] - other.elems()[i]
                    <= i64::MAX,
        ensures
            r.elems().len() == 9,
            forall|i: int|
                0 <= i < 9 ==> #[trigger] r.elems()[i] == self.elems()[i] - other.elems()[i],
    {
        proof {
            assert forall|i: int|
                0 <= i < 9 implies i64::MIN <= #[trigger] smatrix3_elem(self.data, i) - smatrix3_elem(
                other.data,
                i,
            ) <= i64::MAX by {
                assert(self.elems()[i] == smatrix3_elem(self.data, i));
                assert(other.elems()[i] == smatrix3_elem(other.data, i));
            }
        }
        let r = MultiArray::from_inner(sm3_sub(&self.data, &other.data));
        proof {
            assert forall|i: int| 0 <= i < 9 implies #[trigger] r.elems()[i] == self.elems()[i]
                - other.elems()[i] by {
                assert(r.elems()[i] == smatrix3_elem(r.data, i));
            }
        }
        r
    }

    /// In-place variant of `sub`.
    pub fn sub_assign(&mut self, other: &Matrix3)
        requires
            forall|i: int|
                0 <= i < 9 ==> i64::MIN <= #[trigger] old(self).elems()[i] - other.elems()[i]
                    <= i64::MAX,
        ensures
            final(self).elems().len() == 9,
            forall|i: int|
                0 <= i < 9 ==> #[trigger] final(self).elems()[i] == old(self).elems()[i]
                    - other.elems()[i],
    {
        let r = self.sub(other);
        *self = r;
    }

    /// Component-wise negation; every component must be representable
    /// negated.
    pub fn neg(&self) -> (r: Matrix3)
        requires
            forall|i: int| 0 <= i < 9 ==> #[trigger] self.elems()[i] > i64::MIN,
        ensures
            r.elems().len() == 9,
            forall|i: int| 0 <= i < 9 ==> #[trigger] r.elems()[i] == -self.elems()[i],
    {
        proof {
            assert forall|i: int| 0 <= i < 9 implies #[trigger] smatrix3_elem(self.data, i)
                > i64::MIN by {
                assert(self.elems()[i] == smatrix3_elem(self.data, i));
            }
        }
        let r = MultiArray::from_inner(sm3_neg(&self.data));
        proof {
            assert forall|i: int| 0 <= i < 9 implies #[trigger] r.elems()[i]
                == -self.elems()[i] by {
                assert(r.elems()[i] == smatrix3_elem(r.data, i));
            }
        }
        r
    }

    /// Scalar multiplication, broadcast to every component.
    pub fn mul_scalar(&self, k: Num) -> (r: Matrix3)
        requires
            forall|i: int| 0 <= i < 9 ==> i64::MIN <= #[trigger] self.elems()[i] * k <= i64::MAX,
        ensures
            r.elems().len() == 9,
            forall|i: int| 0 <= i < 9 ==> #[trigger] r.elems()[i] == self.elems()[i] * k,
    {
        proof {
            assert forall|i: int| 0 <= i < 9 implies i64::MIN <= #[trigger] smatrix3_elem(self.data, i)
                * k <= i64::MAX by {
                assert(self.elems()[i] == smatrix3_elem(self.data, i));
            }
        }
        let r = MultiArray::from_inner(sm3_scale(&self.data, k));
        proof {
            assert forall|i: int| 0 <= i < 9 implies #[trigger] r.elems()[i] == self.elems()[i]
                * k by {
                assert(r.elems()[i] == smatrix3_elem(r.data, i));
            }
        }
        r
    }

    /// In-place variant of `mul_scalar`.
    pub fn mul_assign(&mut self, k: Num)
        requires
            forall|i: int|
                0 <= i < 9 ==> i64::MIN <= #[trigger] old(self).elems()[i] * k <= i64::MAX,
        ensures
            final(self).elems().len() == 9,
            forall|i: int|
                0 <= i < 9 ==> #[trigger] final(self).elems()[i] == old(self).elems()[i] * k,
    {
        let r = self.mul_scalar(k);
        *self = r;
    }

    /// Scalar division, broadcast to every component; quotients round
    /// toward zero. The divisor must be nonzero and no quotient may
    /// overflow.
    pub fn div_scalar(&self, k: Num) -> (r: Matrix3)
        requires
            k != 0,
            forall|i: int| 0 <= i < 9 ==> !(#[trigger] self.elems()[i] == i64::MIN && k == -1),
        ensures
            r.elems().len() == 9,
            forall|i: int|
                0 <= i < 9 ==> #[trigger] r.elems()[i] == div_trunc(
                    self.elems()[i] as int,
                    k as int,
                ) as Num,
    {
        proof {
            assert forall|i: int| 0 <= i < 9 implies !(#[trigger] smatrix3_elem(self.data, i)
                == i64::MIN && k == -1) by {
                assert(self.elems()[i] == smatrix3_elem(self.data, i));
            }
        }
        let r = MultiArray::from_inner(sm3_div(&self.data, k));
        proof {
            assert forall|i: int| 0 <= i < 9 implies #[trigger] r.elems()[i] == div_trunc(
                self.elems()[i] as int,
                k as int,
            ) as Num by {
                assert(r.elems()[i] == smatrix3_elem(r.data, i));
            }
        }
        r
    }

    /// In-place variant of `div_scalar`.
    pub fn div_assign(&mut self, k: Num)
        requires
            k != 0,
            forall|i: int|
                0 <= i < 9 ==> !(#[trigger] old(self).elems()[i] == i64::MIN && k == -1),
        ensures
            final(self).elems().len() == 9,
            forall|i: int|
                0 <= i < 9 ==> #[trigger] final(self).elems()[i] == div_trunc(
                    old(self).elems()[i] as int,
                    k as int,
                ) as Num,
    {
        let r = self.div_scalar(k);
        *self = r;
    }

    /// Matrix multiplication: element (`r`, `c`) of the product is the dot
    /// product of row `r` of `self` with column `c` of `other`. Every
    /// element of both operands must be of small magnitude, so that the
    /// products and their sums stay representable.
    pub fn mul(&self, other: &Matrix3) -> (r: Matrix3)
        requires
            forall|i: int| 0 <= i < 9 ==> small_mag(#[trigger] self.elems()[i] as int),
            forall|i: int| 0 <= i < 9 ==> small_mag(#[trigger] other.elems()[i] as int),
        ensures
            r.elems() == m3_mul_spec(self.elems(), other.elems()),
    {
        proof {
            assert forall|i: int| 0 <= i < 9 implies small_mag(
                #[trigger] smatrix3_elem(self.data, i) as int,
            ) by {
                assert(self.elems()[i] == smatrix3_elem(self.data, i));
            }
            assert forall|i: int| 0 <= i < 9 implies small_mag(
                #[trigger] smatrix3_elem(other.data, i) as int,
            ) by {
                assert(other.elems()[i] == smatrix3_elem(other.data, i));
            }
        }
        let r = MultiArray::from_inner(sm3_mul(&self.data, &other.data));
        r
    }

    /// Matrix-vector multiplication: component `r` of the product is the
    /// dot product of row `r` of `self` with the vector. Every element of
    /// both operands must be of small magnitude, so that the products and
    /// their sums stay representable.
    pub fn mul_vec(&self, v: &Vector3) -> (r: Vector3)
        requires
            forall|i: int| 0 <= i < 9 ==> small_mag(#[trigger] self.elems()[i] as int),
            forall|i: int| 0 <= i < 3 ==> small_mag(#[trigger] v.elems()[i] as int),
        ensures
            r.elems() == m3_mul_vec_spec(self.elems(), v.elems()),
    {
        proof {
            assert forall|i: int| 0 <= i < 9 implies small_mag(
                #[trigger] smatrix3_elem(self.data, i) as int,
            ) by {
                assert(self.elems()[i] == smatrix3_elem(self.data, i));
            }
            assert forall|i: int| 0 <= i < 3 implies small_mag(
                #[trigger] svector3_elem(v.data, i) as int,
            ) by {
                assert(v.elems()[i] == svector3_elem(v.data, i));
            }
        }
        let r = MultiArray::from_inner(sm3_mul_vec(&self.data, &v.data));
        r
    }
}

} // verus!
