//! Typed element access for chunked fields.

use vstd::prelude::*;
use super::layout::Field;
use super::types::Scalar;
use super::types::SymmTensor;
use super::types::Tensor;
use super::types::Vector;

verus! {

/// Provides typed element access. The output is a bare scalar for scalar
/// fields and an `N`-component array otherwise.
pub trait FieldView<NumT, const N: usize> {
    type Output;

    /// The scalar components carried by one returned element.
    spec fn output_scalars(out: Self::Output) -> Seq<NumT>;

    /// Whether `idx` addresses an element of a well-formed container.
    spec fn valid_index(&self, idx: int) -> bool;

    /// The components stored for the element at `idx`.
    spec fn components_at(&self, idx: int) -> Seq<NumT>;

    /// Returns the element at `idx`.
    fn get(&self, idx: usize) -> (r: Self::Output)
        requires
            self.valid_index(idx as int),
        ensures
            Self::output_scalars(r) == self.components_at(idx as int),
    ;
}

impl<NumT: Copy + Default> FieldView<NumT, 1> for Field<Scalar, NumT, 1> {
    type Output = NumT;

    open spec fn output_scalars(out: NumT) -> Seq<NumT> {
        seq![out]
    }

    open spec fn valid_index(&self, idx: int) -> bool {
        self.wf() && 0 <= idx < self.total_len
    }

    open spec fn components_at(&self, idx: int) -> Seq<NumT> {
        self.spec_element(idx)
    }

    fn get(&self, idx: usize) -> (r: NumT)
        ensures
            Self::output_scalars(r) == self.components_at(idx as int),
    {
        let r = self.component_at(idx, 0);
        proof {
            assert(seq![r] =~= self.spec_element(idx as int));
        }
        r
    }
}

impl<NumT: Copy + Default, const N: usize> FieldView<NumT, N> for Field<Vector, NumT, N> {
    type Output = [NumT; N];

    open spec fn output_scalars(out: [NumT; N]) -> Seq<NumT> {
        out@
    }

    open spec fn valid_index(&self, idx: int) -> bool {
        self.wf() && 0 <= idx < self.total_len
    }

    open spec fn components_at(&self, idx: int) -> Seq<NumT> {
        self.spec_element(idx)
    }

    fn get(&self, idx: usize) -> (r: [NumT; N])
        ensures
            Self::output_scalars(r) == self.components_at(idx as int),
    {
        let mut out = vstd::array::array_fill_for_copy_types::<NumT, N>(NumT::default());
        let mut c: usize = 0;
        while c < N
            invariant
                c <= N,
                self.wf(),
                idx < self.total_len,
                out@.len() == N,
                forall|cc: int|
                    0 <= cc < c ==> #[trigger] out@[cc] == self.spec_component(idx as int, cc),
            decreases N - c,
        {
            out[c] = self.component_at(idx, c);
            c += 1;
        }
        proof {
            assert(out@ =~= self.spec_element(idx as int));
        }
        out
    }
}

impl<NumT: Copy + Default, const N: usize> FieldView<NumT, N> for Field<Tensor, NumT, N> {
    type Output = [NumT; N];

    open spec fn output_scalars(out: [NumT; N]) -> Seq<NumT> {
        out@
    }

    open spec fn valid_index(&self, idx: int) -> bool {
        self.wf() && 0 <= idx < self.total_len
    }

    open spec fn components_at(&self, idx: int) -> Seq<NumT> {
        self.spec_element(idx)
    }

    fn get(&self, idx: usize) -> (r: [NumT; N])
        ensures
            Self::output_scalars(r) == self.components_at(idx as int),
    {
        let mut out = vstd::array::array_fill_for_copy_types::<NumT, N>(NumT::default());
        let mut c: usize = 0;
        while c < N
            invariant
                c <= N,
                self.wf(),
                idx < self.total_len,
                out@.len() == N,
                forall|cc: int|
                    0 <= cc < c ==> #[trigger] out@[cc] == self.spec_component(idx as int, cc),
            decreases N - c,
        {
            out[c] = self.component_at(idx, c);
            c += 1;
        }
        proof {
            assert(out@ =~= self.spec_element(idx as int));
        }
        out
    }
}

impl<NumT: Copy + Default, const N: usize> FieldView<NumT, N> for Field<SymmTensor, NumT, N> {
    type Output = [NumT; N];

    open spec fn output_scalars(out: [NumT; N]) -> Seq<NumT> {
        out@
    }

    open spec fn valid_index(&self, idx: int) -> bool {
        self.wf() && 0 <= idx < self.total_len
    }

    open spec fn components_at(&self, idx: int) -> Seq<NumT> {
        self.spec_element(idx)
    }

    fn get(&self, idx: usize) -> (r: [NumT; N])
        ensures
            Self::output_scalars(r) == self.components_at(idx as int),
    {
        let mut out = vstd::array::array_fill_for_copy_types::<NumT, N>(NumT::default());
        let mut c: usize = 0;
        while c < N
            invariant
                c <= N,
                self.wf(),
                idx < self.total_len,
                out@.len() == N,
                forall|cc: int|
                    0 <= cc < c ==> #[trigger] out@[cc] == self.spec_component(idx as int, cc),
            decreases N - c,
        {
            out[c] = self.component_at(idx, c);
            c += 1;
        }
        proof {
            assert(out@ =~= self.spec_element(idx as int));
        }
        out
    }
}

} // verus!
