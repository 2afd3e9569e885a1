//! Chunked field storage.
//!
//! Provides [`Field`], a container using an array-of-structures-of-arrays
//! memory layout: elements are grouped into fixed-size chunks, and within a
//! chunk each component is stored in its own contiguous array, for cache
//! locality and vectorization-friendly access.

use vstd::prelude::*;
use vstd::arithmetic::div_mod::lemma_fundamental_div_mod;
use vstd::arithmetic::div_mod::lemma_fundamental_div_mod_converse;
use core::marker::PhantomData;

verus! {

/// Number of elements per chunk.
///
/// A tuning parameter: the component arrays of one chunk should fit in cache.
pub const CHUNK_SIZE: usize = 1024;

/// Low-level storage chunk.
///
/// Each chunk stores up to [`CHUNK_SIZE`] elements, with the components of
/// its elements stored in separate contiguous arrays: `data[c][e]` is
/// component `c` of the chunk-local element `e`.
pub struct Chunk<NumT, const N: usize> {
    /// Component arrays, indexed component-first.
    pub data: [[NumT; CHUNK_SIZE]; N],
    /// Number of active elements in this chunk.
    pub len: usize,
}

impl<NumT: Copy + Default, const N: usize> Chunk<NumT, N> {
    /// Creates a new empty chunk; the backing arrays hold default values
    /// until elements become active.
    pub fn new() -> (r: Self)
        ensures
            r.len == 0,
    {
        Chunk { data: vstd::array::array_fill_for_copy_types([NumT::default(); CHUNK_SIZE]), len: 0 }
    }
}

/// Chunked field container.
///
/// # Type parameters
///
/// * `T` - field type marker (`Scalar`, `Vector`, `Tensor`, `SymmTensor`)
/// * `NumT` - numeric storage type of one component
/// * `N` - components per element
pub struct Field<T, NumT, const N: usize> {
    /// Storage chunks.
    pub chunks: Vec<Chunk<NumT, N>>,
    /// Total number of elements across all chunks.
    pub total_len: usize,
    /// Zero-sized marker for the mathematical type.
    pub marker: PhantomData<T>,
}

/// Number of active elements that chunk `i` holds in a field of `total`
/// elements: every chunk before the last is full.
pub open spec fn chunk_len_at(total: int, i: int) -> int {
    if total - i * (CHUNK_SIZE as int) >= CHUNK_SIZE as int {
        CHUNK_SIZE as int
    } else {
        total - i * (CHUNK_SIZE as int)
    }
}

impl<T, NumT, const N: usize> Field<T, NumT, N> {
    /// Structural invariant: the chunk count is the least number of chunks
    /// that holds `total_len` elements, and every chunk before the last is
    /// completely filled.
    pub open spec fn wf(&self) -> bool {
        &&& self.total_len as int <= self.chunks@.len() * (CHUNK_SIZE as int)
        &&& self.chunks@.len() * (CHUNK_SIZE as int) < self.total_len as int + (CHUNK_SIZE as int)
        &&& forall|i: int|
            0 <= i < self.chunks@.len() ==> (#[trigger] self.chunks@[i]).len as int == chunk_len_at(
                self.total_len as int,
                i,
            )
    }

    /// Component `c` of the element at global index `idx`.
    pub open spec fn spec_component(&self, idx: int, c: int) -> NumT {
        self.chunks@[idx / (CHUNK_SIZE as int)].data@[c]@[idx % (CHUNK_SIZE as int)]
    }

    /// The components of the element at global index `idx`.
    pub open spec fn spec_element(&self, idx: int) -> Seq<NumT> {
        Seq::new(N as nat, |c: int| self.spec_component(idx, c))
    }

    /// Abstract contents: the sequence of elements, each a sequence of `N`
    /// components.
    pub open spec fn elems(&self) -> Seq<Seq<NumT>> {
        Seq::new(self.total_len as nat, |i: int| self.spec_element(i))
    }
}

impl<T, NumT: Copy + Default, const N: usize> Field<T, NumT, N> {
    /// Creates a new empty field.
    pub fn new() -> (r: Self)
        ensures
            r.wf(),
            r.elems() == Seq::<Seq<NumT>>::empty(),
            r.total_len == 0,
            r.chunks@.len() == 0,
    {
        let r = Field { chunks: Vec::new(), total_len: 0, marker: PhantomData };
        proof {
            assert(r.elems() =~= Seq::<Seq<NumT>>::empty());
        }
        r
    }

    /// Returns the number of elements in the field.
    pub fn len(&self) -> (r: usize)
        ensures
            r == self.total_len,
            r as nat == self.elems().len(),
    {
        self.total_len
    }

    /// Returns `true` if the field contains no elements.
    pub fn is_empty(&self) -> (r: bool)
        ensures
            r <==> self.elems().len() == 0,
    {
        self.total_len == 0
    }
}

/// A valid element index `i` of a field of `t` elements stored in `m` chunks
/// falls in chunk `i / CHUNK_SIZE`, among its active elements.
proof fn lemma_index_position(t: int, m: int, i: int)
    requires
        0 <= i < t,
        t <= m * (CHUNK_SIZE as int),
        m * (CHUNK_SIZE as int) < t + (CHUNK_SIZE as int),
    ensures
        0 <= i / (CHUNK_SIZE as int) < m,
        0 <= i % (CHUNK_SIZE as int) < CHUNK_SIZE as int,
        i % (CHUNK_SIZE as int) < chunk_len_at(t, i / (CHUNK_SIZE as int)),
{
    let ll = CHUNK_SIZE as int;
    lemma_fundamental_div_mod(i, ll);
    let q = i / ll;
    let r = i % ll;
    assert(0 <= r < ll);
    assert(q >= 0);
    assert(q < m) by {
        if q >= m {
            assert(q * ll >= m * ll) by (nonlinear_arith)
                requires
                    q >= m,
                    ll > 0,
            ;
        }
    }
    assert(i - q * ll == r);
    assert(chunk_len_at(t, q) > r);
}

impl<T, NumT: Copy + Default, const N: usize> Field<T, NumT, N> {
    /// Appends an element with the given component values.
    pub fn push_raw(&mut self, components: [NumT; N])
        requires
            old(self).wf(),
            old(self).total_len < usize::MAX,
        ensures
            final(self).wf(),
            final(self).total_len == old(self).total_len + 1,
            final(self).elems() == old(self).elems().push(components@),
    {
        let ll = CHUNK_SIZE;
        let ghost t = old(self).total_len as int;
        let ghost m0 = old(self).chunks@.len() as int;
        let m = self.chunks.len();
        let mut chunk: Chunk<NumT, N>;
        if m == 0 || self.chunks[m - 1].len == ll {
            // The last chunk (if any) is full, so the field holds exactly
            // m * CHUNK_SIZE elements and a fresh chunk receives the element.
            proof {
                if m0 > 0 {
                    assert(chunk_len_at(t, m0 - 1) == CHUNK_SIZE as int);
                    assert(t >= m0 * (CHUNK_SIZE as int));
                } else {
                    assert(t <= 0);
                }
                assert(t == m0 * (CHUNK_SIZE as int));
            }
            chunk = Chunk::new();
        } else {
            proof {
                assert(self.chunks@[m0 - 1].len as int == chunk_len_at(t, m0 - 1));
                assert((m0 - 1) * (CHUNK_SIZE as int) == m0 * (CHUNK_SIZE as int) - (
                CHUNK_SIZE as int)) by (nonlinear_arith);
                assert(t - (m0 - 1) * (CHUNK_SIZE as int) > 0);
            }
            chunk = self.chunks.pop().unwrap();
        }
        let ghost popped = self.chunks@.len() < m0;
        let ghost chunk0 = chunk;
        let idx = chunk.len;
        proof {
            assert(idx as int == t - self.chunks@.len() * (CHUNK_SIZE as int)) by {
                if popped {
                    assert((m0 - 1) * (CHUNK_SIZE as int) == m0 * (CHUNK_SIZE as int) - (
                    CHUNK_SIZE as int)) by (nonlinear_arith);
                } else {
                    assert(m0 * (CHUNK_SIZE as int) == t);
                }
            }
            assert(idx < CHUNK_SIZE);
        }
        let mut c: usize = 0;
        while c < N
            invariant
                c <= N,
                idx < CHUNK_SIZE,
                chunk.len == chunk0.len,
                chunk.data@.len() == N,
                forall|cc: int| 0 <= cc < c ==> (#[trigger] chunk.data@[cc])@[idx as int]
                    == components@[cc],
                forall|cc: int, j: int|
                    0 <= cc < N && 0 <= j < CHUNK_SIZE && !(j == idx as int && cc < c)
                        ==> #[trigger] chunk.data@[cc]@[j] == chunk0.data@[cc]@[j],
            decreases N - c,
        {
            let mut row = chunk.data[c];
            row[idx] = components[c];
            chunk.data[c] = row;
            c += 1;
        }
        chunk.len = idx + 1;
        self.chunks.push(chunk);
        self.total_len = self.total_len + 1;
        proof {
            let llint = CHUNK_SIZE as int;
            let mnew = self.chunks@.len() as int;
            let last = mnew - 1;
            // The new element sits at global index t, in the last chunk.
            assert(t == last * llint + idx as int);
            lemma_fundamental_div_mod_converse(t, llint, last, idx as int);
            // The layout invariant holds for the grown field.
            assert(mnew * llint == last * llint + llint) by (nonlinear_arith)
                requires
                    mnew == last + 1,
            ;
            assert forall|i: int| 0 <= i < mnew implies (#[trigger] self.chunks@[i]).len as int
                == chunk_len_at(t + 1, i) by {
                if i < last {
                    assert(self.chunks@[i] == old(self).chunks@[i]);
                    assert(chunk_len_at(t, i) == llint);
                    assert(chunk_len_at(t + 1, i) == llint);
                }
            }
            assert(self.wf());
            // The contents are the old contents with the element appended.
            assert forall|i: int, cc: int| 0 <= i < t && 0 <= cc < N implies self.spec_component(
                i,
                cc,
            ) == old(self).spec_component(i, cc) by {
                lemma_index_position(t, m0, i);
                let q = i / llint;
                let r = i % llint;
                if q < last {
                    assert(self.chunks@[q] == old(self).chunks@[q]);
                } else {
                    assert(q == last);
                    // Within the last chunk, only position idx was written,
                    // and r is strictly below idx.
                    assert(r < chunk_len_at(t, q));
                    assert(chunk_len_at(t, last) == idx as int);
                    assert(self.chunks@[q].data@[cc]@[r] == chunk0.data@[cc]@[r]);
                    assert(old(self).chunks@[q].data == chunk0.data);
                }
            }
            assert forall|cc: int| 0 <= cc < N implies self.spec_component(t, cc)
                == components@[cc] by {
                assert(self.chunks@[last].data@[cc]@[idx as int] == components@[cc]);
            }
            assert(self.elems() =~~= old(self).elems().push(components@));
        }
    }

    /// Returns component `c` of the element at global index `idx`.
    pub fn component_at(&self, idx: usize, c: usize) -> (r: NumT)
        requires
            self.wf(),
            idx < self.total_len,
            c < N,
        ensures
            r == self.spec_component(idx as int, c as int),
    {
        proof {
            lemma_index_position(
                self.total_len as int,
                self.chunks@.len() as int,
                idx as int,
            );
        }
        let chunk_idx = idx / CHUNK_SIZE;
        let local_idx = idx % CHUNK_SIZE;
        self.chunks[chunk_idx].data[c][local_idx]
    }
}

impl<T, NumT: Copy + Default, const N: usize> Default for Field<T, NumT, N> {
    /// An empty field, equal to `Field::new()`.
    fn default() -> (r: Self)
        ensures
            r.wf(),
            r.elems() == Seq::<Seq<NumT>>::empty(),
            r.total_len == 0,
    {
        Field::new()
    }
}

} // verus!
