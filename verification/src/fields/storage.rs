//! Contiguous field storage and the flat scalar addressing layer.
//!
//! [`Field`] is a growable, contiguous, homogeneous container for one
//! simulation quantity sampled over many entities. For element types that
//! declare their scalar decomposition through [`FieldElement`], the whole
//! container can be addressed as one flat sequence of scalars, the format
//! expected by external numerical solvers; a scalar written through the flat
//! addressing is the same scalar read through the element view, at element
//! `j / K`, component `j % K`.

use vstd::prelude::*;
use vstd::arithmetic::div_mod::lemma_fundamental_div_mod;
use crate::common::CoreError;
use crate::common::IntScalar;
use crate::common::Num;
use crate::common::UIntScalar;

verus! {

/// A fixed-size aggregate that is exactly `K` scalars in a fixed order.
///
/// Implementors declare their scalar type, their component count, and the
/// total order in which their scalars are laid out; the flat addressing
/// layer is written once against this contract and works for every
/// implementor.
pub trait FieldElement: Sized + Copy {
    type Scalar: Copy;

    /// The component count `K`.
    spec fn spec_components() -> nat;

    /// The aggregate's scalars, in layout order.
    spec fn scalars(&self) -> Seq<Self::Scalar>;

    /// The component count is at least one.
    proof fn components_positive()
        ensures
            Self::spec_components() >= 1,
    ;

    /// Every aggregate carries exactly `K` scalars.
    proof fn scalars_len(&self)
        ensures
            self.scalars().len() == Self::spec_components(),
    ;

    /// The component count as a runtime value.
    fn components() -> (r: usize)
        ensures
            r as nat == Self::spec_components(),
    ;

    /// Returns the `i`-th scalar.
    fn component(&self, i: usize) -> (r: Self::Scalar)
        requires
            (i as nat) < Self::spec_components(),
        ensures
            r == self.scalars()[i as int],
    ;

    /// Builds one aggregate from the first `K` scalars of a slice.
    fn from_scalars(data: &[Self::Scalar]) -> (r: Self)
        requires
            data@.len() >= Self::spec_components(),
        ensures
            r.scalars() == data@.take(Self::spec_components() as int),
    ;
}

/// A plain scalar trivially is a one-component aggregate.
impl FieldElement for Num {
    type Scalar = Num;

    open spec fn spec_components() -> nat {
        1
    }

    open spec fn scalars(&self) -> Seq<Num> {
        seq![*self]
    }

    proof fn components_positive() {
    }

    proof fn scalars_len(&self) {
    }

    fn components() -> (r: usize) {
        1
    }

    fn component(&self, i: usize) -> (r: Num) {
        *self
    }

    fn from_scalars(data: &[Num]) -> (r: Num) {
        let r = data[0];
        proof {
            assert(seq![r] =~= data@.take(1));
        }
        r
    }
}

/// Round trip: an aggregate built from exactly `K` scalars returns exactly
/// those scalars, in order.
pub proof fn lemma_from_scalars_round_trip<E: FieldElement>(s: Seq<E::Scalar>, e: E)
    requires
        s.len() == E::spec_components(),
        e.scalars() == s.take(E::spec_components() as int),
    ensures
        forall|i: int| 0 <= i < s.len() ==> e.scalars()[i] == s[i],
{
    assert(s.take(E::spec_components() as int) =~= s);
}

/// The flat scalar sequence of a sequence of aggregates: scalar `j` is
/// component `j % K` of aggregate `j / K`.
pub open spec fn flat_of<E: FieldElement>(s: Seq<E>) -> Seq<E::Scalar> {
    Seq::new(
        s.len() * E::spec_components(),
        |j: int|
            s[j / (E::spec_components() as int)].scalars()[j % (E::spec_components() as int)],
    )
}

/// The flat view of a field has exactly `len * K` scalars.
pub proof fn lemma_flat_length<E: FieldElement>(s: Seq<E>)
    ensures
        flat_of(s).len() == s.len() * E::spec_components(),
{
}

/// Aliasing: the flat scalar at global index `j` is exactly component
/// `j % K` of the element at `j / K`.
pub proof fn lemma_flat_aliasing<E: FieldElement>(s: Seq<E>, j: int)
    requires
        0 <= j < flat_of(s).len(),
    ensures
        flat_of(s)[j] == s[j / (E::spec_components() as int)].scalars()[j % (
        E::spec_components() as int)],
{
}

/// A valid flat index `j` addresses a valid element and a valid component:
/// `j / K` is an element index and `j % K` is below `K`.
pub proof fn lemma_flat_position<E: FieldElement>(s: Seq<E>, j: int)
    requires
        0 <= j < s.len() * E::spec_components(),
    ensures
        0 <= j / (E::spec_components() as int) < s.len(),
        0 <= j % (E::spec_components() as int) < E::spec_components(),
        j == (j / (E::spec_components() as int)) * (E::spec_components() as int) + j % (
        E::spec_components() as int),
{
    let k = E::spec_components() as int;
    E::components_positive();
    lemma_fundamental_div_mod(j, k);
    let q = j / k;
    let r = j % k;
    assert(q >= 0);
    assert(q < s.len()) by {
        if q >= s.len() {
            assert(q * k >= s.len() * k) by (nonlinear_arith)
                requires
                    q >= s.len(),
                    k > 0,
            ;
        }
    }
    assert(j == q * k + r);
}

/// Generic field container.
///
/// Owns one contiguous run of `T` values; elements have no identity beyond
/// their position, and growth preserves element order.
#[derive(Debug, Clone)]
pub struct Field<T> {
    data: Vec<T>,
}

impl<T> View for Field<T> {
    type V = Seq<T>;

    closed spec fn view(&self) -> Seq<T> {
        self.data@
    }
}

/// Relies on `Vec::capacity` of std: the capacity of a vector is at least
/// its length.
#[verifier::external_body]
fn vec_capacity<T>(v: &Vec<T>) -> (r: usize)
    ensures
        r >= v@.len(),
{
    v.capacity()
}

impl<T> Field<T> {
    /// Creates a new empty field.
    pub fn new() -> (r: Self)
        ensures
            r@ == Seq::<T>::empty(),
    {
        Field { data: Vec::new() }
    }

    /// Creates a new empty field with pre-allocated capacity.
    pub fn with_capacity(capacity: usize) -> (r: Self)
        ensures
            r@ == Seq::<T>::empty(),
    {
        Field { data: Vec::with_capacity(capacity) }
    }

    /// Returns the number of elements in the field.
    pub fn len(&self) -> (r: usize)
        ensures
            r as nat == self@.len(),
    {
        self.data.len()
    }

    /// Returns `true` if the field contains no elements.
    pub fn is_empty(&self) -> (r: bool)
        ensures
            r <==> self@.len() == 0,
    {
        self.data.len() == 0
    }

    /// Appends an element to the end of the field.
    pub fn push(&mut self, value: T)
        ensures
            final(self)@ == old(self)@.push(value),
    {
        self.data.push(value);
    }

    /// Returns the capacity of the field, which is at least its length.
    pub fn capacity(&self) -> (r: usize)
        ensures
            r as nat >= self@.len(),
    {
        vec_capacity(&self.data)
    }

    /// Reserves capacity for at least `additional` more elements; the
    /// contents are unchanged.
    pub fn reserve(&mut self, additional: usize)
        ensures
            final(self)@ == old(self)@,
    {
        self.data.reserve(additional);
    }

    /// Returns a slice containing all elements.
    pub fn as_slice(&self) -> (r: &[T])
        ensures
            r@ == self@,
    {
        self.data.as_slice()
    }

    /// Returns a mutable slice containing all elements.
    pub fn as_mut_slice(&mut self) -> (r: &mut [T])
        ensures
            r@ == old(self)@,
            final(self)@ == final(r)@,
    {
        self.data.as_mut_slice()
    }

    /// Returns the elements as a slice, for iteration in insertion order;
    /// restarting the iteration starts over from the first element.
    pub fn iter(&self) -> (r: &[T])
        ensures
            r@ == self@,
    {
        self.data.as_slice()
    }

    /// Returns the elements as a mutable slice, for in-place mutation in
    /// insertion order.
    pub fn iter_mut(&mut self) -> (r: &mut [T])
        ensures
            r@ == old(self)@,
            final(self)@ == final(r)@,
    {
        self.data.as_mut_slice()
    }

    /// Clears the field, removing all elements; the backing allocation is
    /// kept for reuse.
    pub fn clear(&mut self)
        ensures
            final(self)@ == Seq::<T>::empty(),
    {
        self.data.clear();
    }

    /// Overwrites the element at `index`.
    pub fn set_at(&mut self, index: usize, value: T)
        requires
            (index as nat) < old(self)@.len(),
        ensures
            final(self)@ == old(self)@.update(index as int, value),
    {
        self.data[index] = value;
    }

    /// Overwrites the element at `index`, or returns `IndexOutOfBounds`
    /// exactly when `index` is at least the length, leaving the field
    /// unchanged.
    pub fn try_set_at(&mut self, index: usize, value: T) -> (r: Result<(), CoreError>)
        ensures
            (index as nat) < old(self)@.len() ==> r == Ok::<(), CoreError>(()) && final(self)@
                == old(self)@.update(index as int, value),
            (index as nat) >= old(self)@.len() ==> r == Err::<(), CoreError>(
                CoreError::IndexOutOfBounds,
            ) && final(self)@ == old(self)@,
    {
        if index < self.data.len() {
            self.data[index] = value;
            Ok(())
        } else {
            Err(CoreError::IndexOutOfBounds)
        }
    }
}

/// A transient, non-owning window over a field's contents, addressed as the
/// flat sequence of its elements' scalars.
///
/// The view borrows the field, so it cannot outlive it and cannot coexist
/// with any structural mutation of it; it is re-derived after each such
/// mutation.
pub struct FlatView<'a, E: FieldElement> {
    field: &'a Field<E>,
    len: usize,
}

impl<'a, E: FieldElement> View for FlatView<'a, E> {
    type V = Seq<E::Scalar>;

    closed spec fn view(&self) -> Seq<E::Scalar> {
        flat_of(self.field@)
    }
}

impl<'a, E: FieldElement> FlatView<'a, E> {
    /// The cached length matches the flat sequence.
    pub closed spec fn wf(&self) -> bool {
        self.len as nat == flat_of(self.field@).len()
    }

    /// Returns the number of scalars in the view: the field's element count
    /// times the element type's component count.
    pub fn len(&self) -> (r: usize)
        requires
            self.wf(),
        ensures
            r as nat == self@.len(),
    {
        self.len
    }

    /// Returns `true` if the view holds no scalars.
    pub fn is_empty(&self) -> (r: bool)
        requires
            self.wf(),
        ensures
            r <==> self@.len() == 0,
    {
        self.len == 0
    }

    /// Reads the scalar at flat index `j`: component `j % K` of the field
    /// element at `j / K`.
    pub fn get(&self, j: usize) -> (r: E::Scalar)
        requires
            self.wf(),
            (j as nat) < self@.len(),
        ensures
            r == self@[j as int],
    {
        self.field.flat_get(j)
    }
}

impl<E: FieldElement> Field<E> {
    /// Returns the number of scalars in the flat addressing of the field.
    pub fn flat_len(&self) -> (r: usize)
        requires
            flat_of(self@).len() <= usize::MAX,
        ensures
            r as nat == flat_of(self@).len(),
            r as nat == self@.len() * E::spec_components(),
    {
        let k = E::components();
        proof {
            E::components_positive();
        }
        self.len() * k
    }

    /// Returns a borrowed flat view over the field's contents; the view of
    /// an empty field is the empty sequence.
    pub fn flat_view(&self) -> (r: FlatView<'_, E>)
        requires
            flat_of(self@).len() <= usize::MAX,
        ensures
            r.wf(),
            r@ == flat_of(self@),
    {
        let len = self.flat_len();
        FlatView { field: self, len }
    }

    /// Reads the scalar at flat index `j`: component `j % K` of the element
    /// at `j / K`.
    pub fn flat_get(&self, j: usize) -> (r: E::Scalar)
        requires
            (j as nat) < flat_of(self@).len(),
        ensures
            r == flat_of(self@)[j as int],
    {
        proof {
            lemma_flat_position::<E>(self@, j as int);
        }
        let k = E::components();
        let i = j / k;
        let c = j % k;
        let e = self.get(i);
        e.component(c)
    }

    /// Writes the scalar at flat index `j`. The write is visible through the
    /// element view at element `j / K`, component `j % K`, and every other
    /// scalar of the field is unchanged.
    pub fn flat_set(&mut self, j: usize, x: E::Scalar)
        requires
            (j as nat) < flat_of(old(self)@).len(),
        ensures
            final(self)@.len() == old(self)@.len(),
            flat_of(final(self)@) == flat_of(old(self)@).update(j as int, x),
            forall|i: int|
                0 <= i < old(self)@.len() && i != (j as int) / (E::spec_components() as int)
                    ==> final(self)@[i] == old(self)@[i],
            final(self)@[(j as int) / (E::spec_components() as int)].scalars() == old(
                self,
            )@[(j as int) / (E::spec_components() as int)].scalars().update(
                (j as int) % (E::spec_components() as int),
                x,
            ),
    {
        proof {
            lemma_flat_position::<E>(old(self)@, j as int);
        }
        let k = E::components();
        let i = j / k;
        let c = j % k;
        let e = self.get(i);
        proof {
            e.scalars_len();
        }
        let ghost new_scalars = e.scalars().update(c as int, x);
        let mut v: Vec<E::Scalar> = Vec::new();
        let mut t: usize = 0;
        while t < k
            invariant
                t <= k,
                k as nat == E::spec_components(),
                c < k,
                e.scalars().len() == k as nat,
                new_scalars == e.scalars().update(c as int, x),
                v@.len() == t,
                forall|u: int| 0 <= u < t ==> v@[u] == new_scalars[u],
            decreases k - t,
        {
            if t == c {
                v.push(x);
            } else {
                v.push(e.component(t));
            }
            t += 1;
        }
        proof {
            assert(v@ =~= new_scalars);
        }
        let ne = E::from_scalars(v.as_slice());
        proof {
            ne.scalars_len();
            assert(v@.take(E::spec_components() as int) =~= v@);
        }
        self.set_at(i, ne);
        proof {
            let kk = E::spec_components() as int;
            let s0 = old(self)@;
            let s1 = self@;
            assert(flat_of(s1) =~= flat_of(s0).update(j as int, x)) by {
                assert forall|j2: int| 0 <= j2 < flat_of(s1).len() implies flat_of(s1)[j2]
                    == flat_of(s0).update(j as int, x)[j2] by {
                    lemma_flat_position::<E>(s0, j2);
                    let q2 = j2 / kk;
                    let r2 = j2 % kk;
                    if q2 == i as int {
                        if r2 == c as int {
                            assert(j2 == j as int);
                        } else {
                            assert(s1[q2].scalars()[r2] == s0[q2].scalars()[r2]);
                            assert(j2 != j as int);
                        }
                    } else {
                        assert(s1[q2] == s0[q2]);
                        assert(j2 != j as int) by {
                            if j2 == j as int {
                                assert(q2 == i as int);
                            }
                        }
                    }
                }
            }
        }
    }
}

/// Zero-copy handoff of a whole field to an external solver: the container
/// exposes its contents as one flat scalar sequence and takes a solver's
/// results back from one.
pub trait SolverInterop {
    type Scalar: Copy;

    /// The flat scalar sequence of the container.
    spec fn flat_spec(&self) -> Seq<Self::Scalar>;

    /// Materializes the flat scalar sequence into a fresh vector.
    fn to_flat_vec(&self) -> (r: Vec<Self::Scalar>)
        requires
            self.flat_spec().len() <= usize::MAX,
        ensures
            r@ == self.flat_spec(),
    ;

    /// Overwrites the container's scalars from a flat slice of the same
    /// length, e.g. the solution vector handed back by a solver.
    fn write_flat(&mut self, data: &[Self::Scalar])
        requires
            data@.len() == old(self).flat_spec().len(),
        ensures
            final(self).flat_spec() == data@,
    ;
}

impl<E: FieldElement> SolverInterop for Field<E> {
    type Scalar = E::Scalar;

    open spec fn flat_spec(&self) -> Seq<E::Scalar> {
        flat_of(self@)
    }

    fn to_flat_vec(&self) -> (r: Vec<E::Scalar>)
        ensures
            r@ == self.flat_spec(),
    {
        let n = self.flat_len();
        let mut out: Vec<E::Scalar> = Vec::with_capacity(n);
        let mut j: usize = 0;
        while j < n
            invariant
                j <= n,
                n as nat == flat_of(self@).len(),
                out@.len() == j,
                forall|u: int| 0 <= u < j ==> out@[u] == flat_of(self@)[u],
            decreases n - j,
        {
            out.push(self.flat_get(j));
            j += 1;
        }
        proof {
            assert(out@ =~= flat_of(self@));
        }
        out
    }

    fn write_flat(&mut self, data: &[E::Scalar])
        ensures
            final(self).flat_spec() == data@,
    {
        let n = data.len();
        let mut j: usize = 0;
        while j < n
            invariant
                j <= n,
                n as nat == data@.len(),
                self@.len() == old(self)@.len(),
                flat_of(self@).len() == data@.len(),
                forall|u: int| 0 <= u < j ==> flat_of(self@)[u] == data@[u],
                forall|u: int| j <= u < n ==> flat_of(self@)[u] == flat_of(old(self)@)[u],
            decreases n - j,
        {
            self.flat_set(j, data[j]);
            j += 1;
        }
        proof {
            assert(flat_of(self@) =~= data@);
        }
    }
}

impl<T> Default for Field<T> {
    /// An empty field, equal to `Field::new()`.
    fn default() -> (r: Self)
        ensures
            r@ == Seq::<T>::empty(),
    {
        Field::new()
    }
}

impl<T: Copy> Field<T> {
    /// Returns the element at `index`.
    pub fn get(&self, index: usize) -> (r: T)
        requires
            (index as nat) < self@.len(),
        ensures
            r == self@[index as int],
    {
        self.data[index]
    }

    /// Returns the element at `index`, or `IndexOutOfBounds` exactly when
    /// `index` is at least the length.
    pub fn try_get(&self, index: usize) -> (r: Result<T, CoreError>)
        ensures
            (index as nat) < self@.len() ==> r == Ok::<T, CoreError>(self@[index as int]),
            (index as nat) >= self@.len() ==> r == Err::<T, CoreError>(CoreError::IndexOutOfBounds),
    {
        if index < self.data.len() {
            Ok(self.data[index])
        } else {
            Err(CoreError::IndexOutOfBounds)
        }
    }

    /// Appends every element of `other`, in order.
    pub fn extend(&mut self, other: &[T])
        ensures
            final(self)@ == old(self)@ + other@,
    {
        let mut i: usize = 0;
        while i < other.len()
            invariant
                i <= other@.len(),
                self@ == old(self)@ + other@.take(i as int),
            decreases other@.len() - i,
        {
            self.data.push(other[i]);
            i += 1;
            proof {
                assert(old(self)@ + other@.take(i as int) =~= (old(self)@ + other@.take(
                    i as int - 1,
                )).push(other@[i as int - 1]));
            }
        }
        proof {
            assert(other@.take(other@.len() as int) =~= other@);
        }
    }
}

/// Field of the configured scalar.
pub type NumField = Field<Num>;

/// Synonym of [`NumField`] under the per-element-kind naming pattern.
pub type ScalarField = NumField;

/// Field of 3-vectors.
pub type Vector3Field = Field<crate::multiarray::aliases::Vector3>;

/// Field of 3x3 matrices.
pub type Matrix3Field = Field<crate::multiarray::aliases::Matrix3>;

/// Field of signed integers.
pub type IntField = Field<IntScalar>;

/// Field of unsigned integers.
pub type UIntField = Field<UIntScalar>;

/// Field of booleans.
pub type BoolField = Field<bool>;

} // verus!
