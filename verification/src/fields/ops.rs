//! Generic field operations and the in-place arithmetic layer.
//!
//! Only compound-assignment operators are provided for fields: a binary
//! operator returning a fresh field would hide an allocation of the full
//! data size behind ordinary-looking syntax, which this design avoids by
//! construction.

use vstd::prelude::*;
use vstd::math::abs;
use super::storage::Field;
use crate::common::CoreError;
use crate::common::Num;
use crate::multiarray::aliases::Vector3;

verus! {

/// The contents of a field of contents `s` after resizing to `new_len`,
/// filling with `value` when growing.
pub open spec fn resize_spec<T>(s: Seq<T>, new_len: int, value: T) -> Seq<T> {
    if new_len <= s.len() {
        s.take(new_len)
    } else {
        s + Seq::new((new_len - s.len()) as nat, |i: int| value)
    }
}

/// Resizing is idempotent: resizing to the same length with the same fill
/// value a second time leaves the contents unchanged.
pub proof fn lemma_resize_idempotent<T>(s: Seq<T>, new_len: int, value: T)
    requires
        0 <= new_len,
    ensures
        resize_spec(resize_spec(s, new_len, value), new_len, value) == resize_spec(
            s,
            new_len,
            value,
        ),
{
    let r1 = resize_spec(s, new_len, value);
    assert(r1.len() == new_len);
    assert(resize_spec(r1, new_len, value) =~= r1);
}

/// Generic operations available for all field element types.
pub trait FieldOps<T>: View<V = Seq<T>> {
    /// Overwrites every element with the given value.
    fn fill(&mut self, value: T)
        ensures
            final(self)@ == Seq::new(old(self)@.len(), |i: int| value),
    ;

    /// Resizes the field to `new_len` elements: grows by appending copies of
    /// `value`, or truncates by discarding trailing elements.
    fn resize(&mut self, new_len: usize, value: T)
        ensures
            final(self)@ == resize_spec(old(self)@, new_len as int, value),
    ;

    /// Removes all elements from the field.
    fn clear(&mut self)
        ensures
            final(self)@ == Seq::<T>::empty(),
    ;
}

impl<T: Copy> FieldOps<T> for Field<T> {
    fn fill(&mut self, value: T)
        ensures
            final(self)@ == Seq::new(old(self)@.len(), |i: int| value),
    {
        let n = self.len();
        let mut i: usize = 0;
        while i < n
            invariant
                i <= n,
                self@.len() == n as nat,
                n as nat == old(self)@.len(),
                forall|u: int| 0 <= u < i ==> self@[u] == value,
                forall|u: int| i <= u < n ==> self@[u] == old(self)@[u],
            decreases n - i,
        {
            self.set_at(i, value);
            i += 1;
        }
        proof {
            assert(self@ =~= Seq::new(old(self)@.len(), |u: int| value));
        }
    }

    fn resize(&mut self, new_len: usize, value: T)
        ensures
            final(self)@ == resize_spec(old(self)@, new_len as int, value),
    {
        let current_len = self.len();
        if new_len > current_len {
            let mut i: usize = current_len;
            while i < new_len
                invariant
                    current_len <= i <= new_len,
                    current_len as nat == old(self)@.len(),
                    self@ == old(self)@ + Seq::new((i - current_len) as nat, |u: int| value),
                decreases new_len - i,
            {
                self.push(value);
                i += 1;
                proof {
                    assert(old(self)@ + Seq::new((i - current_len) as nat, |u: int| value) =~= (
                    old(self)@ + Seq::new((i - 1 - current_len) as nat, |u: int| value)).push(
                        value,
                    ));
                }
            }
        } else if new_len < current_len {
            let mut new_field: Field<T> = Field::with_capacity(new_len);
            let mut i: usize = 0;
            while i < new_len
                invariant
                    i <= new_len,
                    new_len as nat <= self@.len(),
                    self@ == old(self)@,
                    new_field@ == self@.take(i as int),
                decreases new_len - i,
            {
                let v = self.get(i);
                new_field.push(v);
                i += 1;
                proof {
                    assert(self@.take(i as int) =~= self@.take(i as int - 1).push(
                        self@[i as int - 1],
                    ));
                }
            }
            *self = new_field;
        } else {
            proof {
                assert(resize_spec(old(self)@, new_len as int, value) =~= old(self)@);
            }
        }
    }

    fn clear(&mut self)
        ensures
            final(self)@ == Seq::<T>::empty(),
    {
        Field::clear(self);
    }
}

/// Reduction operations for fields with orderable element types.
pub trait ReductionOps<T>: View<V = Seq<T>> {
    /// The order used by the reductions.
    spec fn le_spec(a: T, b: T) -> bool;

    /// Returns the greatest element, or `None` exactly when the field is
    /// empty.
    fn max(&self) -> (r: Option<T>)
        ensures
            match r {
                Option::Some(v) => self@.contains(v) && forall|i: int|
                    0 <= i < self@.len() ==> Self::le_spec(#[trigger] self@[i], v),
                Option::None => self@.len() == 0,
            },
    ;

    /// Returns the least element, or `None` exactly when the field is empty.
    fn min(&self) -> (r: Option<T>)
        ensures
            match r {
                Option::Some(v) => self@.contains(v) && forall|i: int|
                    0 <= i < self@.len() ==> Self::le_spec(v, #[trigger] self@[i]),
                Option::None => self@.len() == 0,
            },
    ;
}

impl ReductionOps<Num> for Field<Num> {
    open spec fn le_spec(a: Num, b: Num) -> bool {
        a <= b
    }

    fn max(&self) -> (r: Option<Num>)
        ensures
            match r {
                Option::Some(v) => self@.contains(v) && forall|i: int|
                    0 <= i < self@.len() ==> #[trigger] self@[i] <= v,
                Option::None => self@.len() == 0,
            },
    {
        let n = self.len();
        if n == 0 {
            return None;
        }
        let mut best = self.get(0);
        proof {
            assert(self@.take(1)[0] == best);
        }
        let mut i: usize = 1;
        while i < n
            invariant
                1 <= i <= n,
                n as nat == self@.len(),
                self@.take(i as int).contains(best),
                forall|u: int| 0 <= u < i ==> #[trigger] self@[u] <= best,
            decreases n - i,
        {
            let v = self.get(i);
            proof {
                let ghost prev = self@.take(i as int);
                assert(prev.contains(best));
                let ghost w = choose|w: int| 0 <= w < prev.len() && prev[w] == best;
                assert(self@.take(i as int + 1)[w] == best);
                assert(self@.take(i as int + 1)[i as int] == v);
            }
            if v > best {
                best = v;
            }
            i += 1;
        }
        proof {
            assert(self@.take(n as int) =~= self@);
        }
        Some(best)
    }

    fn min(&self) -> (r: Option<Num>)
        ensures
            match r {
                Option::Some(v) => self@.contains(v) && forall|i: int|
                    0 <= i < self@.len() ==> v <= #[trigger] self@[i],
                Option::None => self@.len() == 0,
            },
    {
        let n = self.len();
        if n == 0 {
            return None;
        }
        let mut best = self.get(0);
        proof {
            assert(self@.take(1)[0] == best);
        }
        let mut i: usize = 1;
        while i < n
            invariant
                1 <= i <= n,
                n as nat == self@.len(),
                self@.take(i as int).contains(best),
                forall|u: int| 0 <= u < i ==> best <= #[trigger] self@[u],
            decreases n - i,
        {
            let v = self.get(i);
            proof {
                let ghost prev = self@.take(i as int);
                assert(prev.contains(best));
                let ghost w = choose|w: int| 0 <= w < prev.len() && prev[w] == best;
                assert(self@.take(i as int + 1)[w] == best);
                assert(self@.take(i as int + 1)[i as int] == v);
            }
            if v < best {
                best = v;
            }
            i += 1;
        }
        proof {
            assert(self@.take(n as int) =~= self@);
        }
        Some(best)
    }
}

/// The sum of the first `n` elements.
pub open spec fn sum_prefix(s: Seq<Num>, n: int) -> int
    decreases n,
{
    if n <= 0 {
        0
    } else {
        sum_prefix(s, n - 1) + s[n - 1]
    }
}

/// Sum operations for fields with summable element types.
pub trait SumOps<T>: View<V = Seq<T>> {
    /// Whether every partial sum of the contents stays representable.
    spec fn sum_pre(s: Seq<T>) -> bool;

    /// Whether `r` is the fold of the contents from the zero value.
    spec fn sum_post(s: Seq<T>, r: T) -> bool;

    /// Sums all elements, folding from the element type's zero value.
    fn sum(&self) -> (r: T)
        requires
            Self::sum_pre(self@),
        ensures
            Self::sum_post(self@, r),
    ;
}

impl SumOps<Num> for Field<Num> {
    open spec fn sum_pre(s: Seq<Num>) -> bool {
        forall|n: int| 0 <= n <= s.len() ==> i64::MIN <= #[trigger] sum_prefix(s, n) <= i64::MAX
    }

    open spec fn sum_post(s: Seq<Num>, r: Num) -> bool {
        r == sum_prefix(s, s.len() as int)
    }

    fn sum(&self) -> (r: Num)
        ensures
            Self::sum_post(self@, r),
    {
        let n = self.len();
        let mut acc: Num = 0;
        let mut i: usize = 0;
        while i < n
            invariant
                i <= n,
                n as nat == self@.len(),
                Self::sum_pre(self@),
                acc == sum_prefix(self@, i as int),
            decreases n - i,
        {
            let v = self.get(i);
            proof {
                assert(sum_prefix(self@, i as int + 1) == sum_prefix(self@, i as int) + self@[
                    i as int
                ]);
                assert(i64::MIN <= sum_prefix(self@, i as int + 1) <= i64::MAX);
            }
            acc = acc + v;
            i += 1;
        }
        acc
    }
}

/// Truncating integer division, as the `/` operator of the execution
/// language computes it: the magnitude of the quotient is the quotient of
/// the magnitudes, and the quotient is negative exactly when the operands'
/// signs differ.
pub open spec fn div_trunc(a: int, b: int) -> int {
    let mag = abs(a) as int / abs(b) as int;
    if (a >= 0) == (b >= 0) {
        mag
    } else {
        -mag
    }
}

/// Divides `a` by a nonzero divisor `b`, rounding toward zero.
fn div_scalar(a: Num, b: Num) -> (q: Num)
    requires
        b != 0,
        !(a == i64::MIN && b == -1),
    ensures
        q as int == div_trunc(a as int, b as int),
    decreases (if b < 0 { 1int } else { 0int }),
{
    if b > 0 {
        let q = a / b;
        proof {
            if a >= 0 {
                assert(abs(a as int) == a as int && abs(b as int) == b as int);
            } else {
                assert(q as int == -((-(a as int)) / (b as int)));
                assert(abs(a as int) == -(a as int) && abs(b as int) == b as int);
            }
        }
        q
    } else if b == i64::MIN {
        // The divisor's magnitude exceeds every element's magnitude except
        // its own.
        if a == i64::MIN {
            proof {
                assert(abs(a as int) as int / abs(b as int) as int == 1) by {
                    vstd::arithmetic::div_mod::lemma_div_by_self(abs(b as int) as int);
                }
            }
            1
        } else {
            proof {
                assert(abs(a as int) < abs(b as int));
                vstd::arithmetic::div_mod::lemma_basic_div(
                    abs(a as int) as int,
                    abs(b as int) as int,
                );
            }
            0
        }
    } else {
        // A negative divisor above the minimum: divide by its magnitude and
        // negate the quotient.
        let nb = -b;
        let t = div_scalar(a, nb);
        proof {
            assert(abs(nb as int) == abs(b as int));
            if nb == 1 {
                assert(abs(a as int) as int / 1int == abs(a as int) as int);
                assert(a != i64::MIN);
            } else {
                vstd::arithmetic::div_mod::lemma_div_is_ordered_by_denominator(
                    abs(a as int) as int,
                    2,
                    abs(b as int) as int,
                );
                vstd::arithmetic::div_mod::lemma_div_is_ordered(
                    abs(a as int) as int,
                    0x8000_0000_0000_0000,
                    2,
                );
            }
        }
        -t
    }
}

impl Field<Num> {
    /// In-place element-wise addition: both operands must have equal length,
    /// and every element-wise sum must be representable.
    pub fn add_assign(&mut self, other: &Field<Num>)
        requires
            old(self)@.len() == other@.len(),
            forall|i: int|
                0 <= i < old(self)@.len() ==> i64::MIN <= #[trigger] old(self)@[i] + other@[i] <= i64::MAX,
        ensures
            final(self)@.len() == old(self)@.len(),
            forall|i: int|
                0 <= i < old(self)@.len() ==> final(self)@[i] == old(self)@[i] + other@[i],
    {
        let n = self.len();
        let mut i: usize = 0;
        while i < n
            invariant
                i <= n,
                n as nat == self@.len(),
                self@.len() == old(self)@.len(),
                other@.len() == old(self)@.len(),
                forall|u: int|
                    0 <= u < old(self)@.len() ==> i64::MIN <= #[trigger] old(self)@[u] + other@[u]
                        <= i64::MAX,
                forall|u: int| 0 <= u < i ==> self@[u] == old(self)@[u] + other@[u],
                forall|u: int| i <= u < n ==> self@[u] == old(self)@[u],
            decreases n - i,
        {
            let a = self.get(i);
            let b = other.get(i);
            self.set_at(i, a + b);
            i += 1;
        }
    }

    /// In-place element-wise subtraction: both operands must have equal
    /// length, and every element-wise difference must be representable.
    pub fn sub_assign(&mut self, other: &Field<Num>)
        requires
            old(self)@.len() == other@.len(),
            forall|i: int|
                0 <= i < old(self)@.len() ==> i64::MIN <= #[trigger] old(self)@[i] - other@[i] <= i64::MAX,
        ensures
            final(self)@.len() == old(self)@.len(),
            forall|i: int|
                0 <= i < old(self)@.len() ==> final(self)@[i] == old(self)@[i] - other@[i],
    {
        let n = self.len();
        let mut i: usize = 0;
        while i < n
            invariant
                i <= n,
                n as nat == self@.len(),
                self@.len() == old(self)@.len(),
                other@.len() == old(self)@.len(),
                forall|u: int|
                    0 <= u < old(self)@.len() ==> i64::MIN <= #[trigger] old(self)@[u] - other@[u]
                        <= i64::MAX,
                forall|u: int| 0 <= u < i ==> self@[u] == old(self)@[u] - other@[u],
                forall|u: int| i <= u < n ==> self@[u] == old(self)@[u],
            decreases n - i,
        {
            let a = self.get(i);
            let b = other.get(i);
            self.set_at(i, a - b);
            i += 1;
        }
    }

    /// In-place element-wise addition, rejecting unequal lengths with
    /// `LengthMismatch` and leaving the field unchanged in that case.
    pub fn try_add_assign(&mut self, other: &Field<Num>) -> (r: Result<(), CoreError>)
        requires
            old(self)@.len() == other@.len() ==> forall|i: int|
                0 <= i < old(self)@.len() ==> i64::MIN <= #[trigger] old(self)@[i] + other@[i] <= i64::MAX,
        ensures
            old(self)@.len() == other@.len() ==> r == Ok::<(), CoreError>(()) && final(self)@.len() == old(self)@.len() && forall|i: int|
                0 <= i < old(self)@.len() ==> final(self)@[i] == old(self)@[i] + other@[i],
            old(self)@.len() != other@.len() ==> r == Err::<(), CoreError>(
                CoreError::LengthMismatch,
            ) && final(self)@ == old(self)@,
    {
        if self.len() != other.len() {
            return Err(CoreError::LengthMismatch);
        }
        self.add_assign(other);
        Ok(())
    }

    /// In-place element-wise subtraction, rejecting unequal lengths with
    /// `LengthMismatch` and leaving the field unchanged in that case.
    pub fn try_sub_assign(&mut self, other: &Field<Num>) -> (r: Result<(), CoreError>)
        requires
            old(self)@.len() == other@.len() ==> forall|i: int|
                0 <= i < old(self)@.len() ==> i64::MIN <= #[trigger] old(self)@[i] - other@[i] <= i64::MAX,
        ensures
            old(self)@.len() == other@.len() ==> r == Ok::<(), CoreError>(()) && final(self)@.len() == old(self)@.len() && forall|i: int|
                0 <= i < old(self)@.len() ==> final(self)@[i] == old(self)@[i] - other@[i],
            old(self)@.len() != other@.len() ==> r == Err::<(), CoreError>(
                CoreError::LengthMismatch,
            ) && final(self)@ == old(self)@,
    {
        if self.len() != other.len() {
            return Err(CoreError::LengthMismatch);
        }
        self.sub_assign(other);
        Ok(())
    }

    /// In-place scalar addition, broadcast to every element.
    pub fn add_assign_scalar(&mut self, scalar: Num)
        requires
            forall|i: int|
                0 <= i < old(self)@.len() ==> i64::MIN <= #[trigger] old(self)@[i] + scalar <= i64::MAX,
        ensures
            final(self)@.len() == old(self)@.len(),
            forall|i: int| 0 <= i < old(self)@.len() ==> final(self)@[i] == old(self)@[i] + scalar,
    {
        let n = self.len();
        let mut i: usize = 0;
        while i < n
            invariant
                i <= n,
                n as nat == self@.len(),
                self@.len() == old(self)@.len(),
                forall|u: int|
                    0 <= u < old(self)@.len() ==> i64::MIN <= #[trigger] old(self)@[u] + scalar <= i64::MAX,
                forall|u: int| 0 <= u < i ==> self@[u] == old(self)@[u] + scalar,
                forall|u: int| i <= u < n ==> self@[u] == old(self)@[u],
            decreases n - i,
        {
            let a = self.get(i);
            self.set_at(i, a + scalar);
            i += 1;
        }
    }

    /// In-place scalar subtraction, broadcast to every element.
    pub fn sub_assign_scalar(&mut self, scalar: Num)
        requires
            forall|i: int|
                0 <= i < old(self)@.len() ==> i64::MIN <= #[trigger] old(self)@[i] - scalar <= i64::MAX,
        ensures
            final(self)@.len() == old(self)@.len(),
            forall|i: int| 0 <= i < old(self)@.len() ==> final(self)@[i] == old(self)@[i] - scalar,
    {
        let n = self.len();
        let mut i: usize = 0;
        while i < n
            invariant
                i <= n,
                n as nat == self@.len(),
                self@.len() == old(self)@.len(),
                forall|u: int|
                    0 <= u < old(self)@.len() ==> i64::MIN <= #[trigger] old(self)@[u] - scalar <= i64::MAX,
                forall|u: int| 0 <= u < i ==> self@[u] == old(self)@[u] - scalar,
                forall|u: int| i <= u < n ==> self@[u] == old(self)@[u],
            decreases n - i,
        {
            let a = self.get(i);
            self.set_at(i, a - scalar);
            i += 1;
        }
    }

    /// In-place scalar multiplication, broadcast to every element.
    pub fn mul_assign(&mut self, factor: Num)
        requires
            forall|i: int|
                0 <= i < old(self)@.len() ==> i64::MIN <= #[trigger] old(self)@[i] * factor <= i64::MAX,
        ensures
            final(self)@.len() == old(self)@.len(),
            forall|i: int| 0 <= i < old(self)@.len() ==> final(self)@[i] == old(self)@[i] * factor,
    {
        let n = self.len();
        let mut i: usize = 0;
        while i < n
            invariant
                i <= n,
                n as nat == self@.len(),
                self@.len() == old(self)@.len(),
                forall|u: int|
                    0 <= u < old(self)@.len() ==> i64::MIN <= #[trigger] old(self)@[u] * factor <= i64::MAX,
                forall|u: int| 0 <= u < i ==> self@[u] == old(self)@[u] * factor,
                forall|u: int| i <= u < n ==> self@[u] == old(self)@[u],
            decreases n - i,
        {
            let a = self.get(i);
            self.set_at(i, a * factor);
            i += 1;
        }
    }

    /// In-place scalar division, broadcast to every element; quotients round
    /// toward zero. The divisor must be nonzero and no quotient may overflow.
    pub fn div_assign(&mut self, divisor: Num)
        requires
            divisor != 0,
            forall|i: int|
                0 <= i < old(self)@.len() ==> !(#[trigger] old(self)@[i] == i64::MIN && divisor == -1),
        ensures
            final(self)@.len() == old(self)@.len(),
            forall|i: int|
                0 <= i < old(self)@.len() ==> final(self)@[i] == div_trunc(
                    old(self)@[i] as int,
                    divisor as int,
                ),
    {
        let n = self.len();
        let mut i: usize = 0;
        while i < n
            invariant
                i <= n,
                divisor != 0,
                n as nat == self@.len(),
                self@.len() == old(self)@.len(),
                forall|u: int|
                    0 <= u < old(self)@.len() ==> !(#[trigger] old(self)@[u] == i64::MIN && divisor == -1),
                forall|u: int| 0 <= u < i ==> self@[u] == div_trunc(
                    old(self)@[u] as int,
                    divisor as int,
                ),
                forall|u: int| i <= u < n ==> self@[u] == old(self)@[u],
            decreases n - i,
        {
            let a = self.get(i);
            let q = div_scalar(a, divisor);
            self.set_at(i, q);
            i += 1;
        }
    }
}

impl Field<Vector3> {
    /// In-place element-wise addition of vector fields: both operands must
    /// have equal length, and every component-wise sum must be
    /// representable.
    pub fn add_assign(&mut self, other: &Field<Vector3>)
        requires
            old(self)@.len() == other@.len(),
            forall|i: int, c: int|
                0 <= i < old(self)@.len() && 0 <= c < 3 ==> i64::MIN <= #[trigger] old(self)@[i].elems()[c] + other@[i].elems()[c] <= i64::MAX,
        ensures
            final(self)@.len() == old(self)@.len(),
            forall|i: int, c: int|
                0 <= i < old(self)@.len() && 0 <= c < 3 ==> #[trigger] final(self)@[i].elems()[c]
                    == old(self)@[i].elems()[c] + other@[i].elems()[c],
    {
        let n = self.len();
        let mut i: usize = 0;
        while i < n
            invariant
                i <= n,
                n as nat == self@.len(),
                self@.len() == old(self)@.len(),
                other@.len() == old(self)@.len(),
                forall|u: int, c: int|
                    0 <= u < old(self)@.len() && 0 <= c < 3 ==> i64::MIN <= #[trigger] old(self)@[u].elems()[c] + other@[u].elems()[c] <= i64::MAX,
                forall|u: int, c: int|
                    0 <= u < i && 0 <= c < 3 ==> #[trigger] self@[u].elems()[c] == old(self)@[u].elems()[c] + other@[u].elems()[c],
                forall|u: int| i <= u < n ==> #[trigger] self@[u] == old(self)@[u],
            decreases n - i,
        {
            let a = self.get(i);
            let b = other.get(i);
            let s = a.add(&b);
            self.set_at(i, s);
            i += 1;
        }
    }

    /// In-place element-wise subtraction of vector fields: both operands
    /// must have equal length, and every component-wise difference must be
    /// representable.
    pub fn sub_assign(&mut self, other: &Field<Vector3>)
        requires
            old(self)@.len() == other@.len(),
            forall|i: int, c: int|
                0 <= i < old(self)@.len() && 0 <= c < 3 ==> i64::MIN <= #[trigger] old(self)@[i].elems()[c] - other@[i].elems()[c] <= i64::MAX,
        ensures
            final(self)@.len() == old(self)@.len(),
            forall|i: int, c: int|
                0 <= i < old(self)@.len() && 0 <= c < 3 ==> #[trigger] final(self)@[i].elems()[c]
                    == old(self)@[i].elems()[c] - other@[i].elems()[c],
    {
        let n = self.len();
        let mut i: usize = 0;
        while i < n
            invariant
                i <= n,
                n as nat == self@.len(),
                self@.len() == old(self)@.len(),
                other@.len() == old(self)@.len(),
                forall|u: int, c: int|
                    0 <= u < old(self)@.len() && 0 <= c < 3 ==> i64::MIN <= #[trigger] old(self)@[u].elems()[c] - other@[u].elems()[c] <= i64::MAX,
                forall|u: int, c: int|
                    0 <= u < i && 0 <= c < 3 ==> #[trigger] self@[u].elems()[c] == old(self)@[u].elems()[c] - other@[u].elems()[c],
                forall|u: int| i <= u < n ==> #[trigger] self@[u] == old(self)@[u],
            decreases n - i,
        {
            let a = self.get(i);
            let b = other.get(i);
            let s = a.sub(&b);
            self.set_at(i, s);
            i += 1;
        }
    }

    /// In-place scalar multiplication of a vector field, broadcast to every
    /// component of every element.
    pub fn mul_assign(&mut self, factor: Num)
        requires
            forall|i: int, c: int|
                0 <= i < old(self)@.len() && 0 <= c < 3 ==> i64::MIN <= #[trigger] old(self)@[i].elems()[c] * factor <= i64::MAX,
        ensures
            final(self)@.len() == old(self)@.len(),
            forall|i: int, c: int|
                0 <= i < old(self)@.len() && 0 <= c < 3 ==> #[trigger] final(self)@[i].elems()[c]
                    == old(self)@[i].elems()[c] * factor,
    {
        let n = self.len();
        let mut i: usize = 0;
        while i < n
            invariant
                i <= n,
                n as nat == self@.len(),
                self@.len() == old(self)@.len(),
                forall|u: int, c: int|
                    0 <= u < old(self)@.len() && 0 <= c < 3 ==> i64::MIN <= #[trigger] old(self)@[u].elems()[c] * factor <= i64::MAX,
                forall|u: int, c: int|
                    0 <= u < i && 0 <= c < 3 ==> #[trigger] self@[u].elems()[c] == old(self)@[u].elems()[c] * factor,
                forall|u: int| i <= u < n ==> #[trigger] self@[u] == old(self)@[u],
            decreases n - i,
        {
            let a = self.get(i);
            let s = a.mul_scalar(factor);
            self.set_at(i, s);
            i += 1;
        }
    }

    /// In-place element-wise addition of vector fields, rejecting unequal
    /// lengths with `LengthMismatch` and leaving the field unchanged in
    /// that case.
    pub fn try_add_assign(&mut self, other: &Field<Vector3>) -> (r: Result<(), CoreError>)
        requires
            old(self)@.len() == other@.len() ==> forall|i: int, c: int|
                0 <= i < old(self)@.len() && 0 <= c < 3 ==> i64::MIN <= #[trigger] old(self)@[i].elems()[c] + other@[i].elems()[c] <= i64::MAX,
        ensures
            old(self)@.len() == other@.len() ==> r == Ok::<(), CoreError>(()) && final(self)@.len() == old(self)@.len() && forall|i: int, c: int|
                0 <= i < old(self)@.len() && 0 <= c < 3 ==> #[trigger] final(self)@[i].elems()[c]
                    == old(self)@[i].elems()[c] + other@[i].elems()[c],
            old(self)@.len() != other@.len() ==> r == Err::<(), CoreError>(
                CoreError::LengthMismatch,
            ) && final(self)@ == old(self)@,
    {
        if self.len() != other.len() {
            return Err(CoreError::LengthMismatch);
        }
        self.add_assign(other);
        Ok(())
    }
}

/// Component `c` of the sum of the first `n` vectors.
pub open spec fn vec3_sum_prefix(s: Seq<Vector3>, n: int, c: int) -> int
    decreases n,
{
    if n <= 0 {
        0
    } else {
        vec3_sum_prefix(s, n - 1, c) + s[n - 1].elems()[c]
    }
}

impl SumOps<Vector3> for Field<Vector3> {
    open spec fn sum_pre(s: Seq<Vector3>) -> bool {
        forall|n: int, c: int|
            0 <= n <= s.len() && 0 <= c < 3 ==> i64::MIN <= #[trigger] vec3_sum_prefix(s, n, c)
                <= i64::MAX
    }

    open spec fn sum_post(s: Seq<Vector3>, r: Vector3) -> bool {
        forall|c: int| 0 <= c < 3 ==> #[trigger] r.elems()[c] == vec3_sum_prefix(s, s.len() as int, c)
    }

    fn sum(&self) -> (r: Vector3)
        ensures
            Self::sum_post(self@, r),
    {
        let n = self.len();
        let mut acc = Vector3::zeros();
        let mut i: usize = 0;
        while i < n
            invariant
                i <= n,
                n as nat == self@.len(),
                Self::sum_pre(self@),
                acc.elems().len() == 3,
                forall|c: int| 0 <= c < 3 ==> #[trigger] acc.elems()[c] == vec3_sum_prefix(
                    self@,
                    i as int,
                    c,
                ),
            decreases n - i,
        {
            let v = self.get(i);
            proof {
                assert forall|c: int| 0 <= c < 3 implies i64::MIN <= #[trigger] acc.elems()[c]
                    + v.elems()[c] <= i64::MAX by {
                    assert(vec3_sum_prefix(self@, i as int + 1, c) == vec3_sum_prefix(
                        self@,
                        i as int,
                        c,
                    ) + self@[i as int].elems()[c]);
                }
            }
            acc = acc.add(&v);
            i += 1;
            proof {
                assert forall|c: int| 0 <= c < 3 implies #[trigger] acc.elems()[c]
                    == vec3_sum_prefix(self@, i as int, c) by {
                    assert(vec3_sum_prefix(self@, i as int, c) == vec3_sum_prefix(
                        self@,
                        i as int - 1,
                        c,
                    ) + self@[i as int - 1].elems()[c]);
                }
            }
        }
        acc
    }
}

} // verus!
