//! The owned storage bridge for chunk access.

use vstd::prelude::*;
use vstd::pervasive::VecAdditionalExecFns;
use vstd::slice::slice_subrange;
use vstd::arithmetic::div_mod::lemma_fundamental_div_mod;
use vstd::arithmetic::mul::lemma_mul_is_commutative;
use crate::collection::{TrustedSizedCollection, TrustedChunkSizedCollection, divides_evenly, chunk_of, splice_chunk};
use crate::no_ref::UnsafeNoRefChunkIndex;
use crate::data_race::UnsafeDataRaceChunkAccess;
use crate::unsafe_index::UnsafeChunkIndex;

verus! {

/// An owned, fixed-size buffer opened for chunk-addressed access.
///
/// The wrapper takes ownership of a plain `Vec` whose length splits exactly
/// into runs of `chunk_size` elements; chunk `i` covers the element indices
/// `[i * chunk_size, (i + 1) * chunk_size)`.  The chunk size is fixed at
/// construction, the partition is exact (`num_elements == num_chunks *
/// chunk_size`), and conversion back preserves the length and the element at
/// every index.
pub struct OwnedParChunkSlice<T> {
    data: Vec<T>,
    num_chunks: usize,
    chunk_size: usize,
}

impl<T> View for OwnedParChunkSlice<T> {
    type V = Seq<T>;

    /// The abstract contents of the buffer, flattened over all chunks.
    closed spec fn view(&self) -> Seq<T> {
        self.data@
    }
}

/// A chunk index that is in range addresses elements that are in range.
proof fn lemma_chunk_in_range(num_chunks: nat, chunk_size: nat, index: nat, len: nat)
    requires
        index < num_chunks,
        num_chunks * chunk_size == len,
    ensures
        index * chunk_size + chunk_size <= len,
{
    assert(index * chunk_size + chunk_size <= num_chunks * chunk_size) by (nonlinear_arith)
        requires
            index < num_chunks,
    ;
}

impl<T> OwnedParChunkSlice<T> {
    /// Wraps an owned buffer for chunk-addressed access; `chunk_size` must
    /// divide the buffer's length exactly.
    pub fn from_vec(data: Vec<T>, chunk_size: usize) -> (r: Self)
        requires
            divides_evenly(data@.len(), chunk_size as nat),
        ensures
            r@ == data@,
            r.wf(),
            r.spec_chunk_size() == chunk_size as nat,
            r.spec_len() == data@.len() / (chunk_size as nat),
            r.spec_num_elements() == data@.len(),
    {
        proof {
            lemma_fundamental_div_mod(data@.len() as int, chunk_size as int);
            lemma_mul_is_commutative(
                chunk_size as int,
                (data@.len() / (chunk_size as nat)) as int,
            );
        }
        let num_chunks = data.len() / chunk_size;
        OwnedParChunkSlice { data, num_chunks, chunk_size }
    }

    /// Converts the wrapper back into a plain buffer, preserving the length
    /// and the element at every index.
    pub fn into_inner(self) -> (r: Vec<T>)
        ensures
            r@ == self@,
    {
        self.data
    }

    /// Returns a shared reference to the chunk at `index`.
    fn chunk_ref(&self, index: usize) -> (r: &[T])
        requires
            self.wf(),
            (index as nat) < self.spec_len(),
        ensures
            r@ == chunk_of(self@, self.spec_chunk_size(), index as nat),
    {
        proof {
            lemma_chunk_in_range(
                self.num_chunks as nat,
                self.chunk_size as nat,
                index as nat,
                self.data@.len(),
            );
        }
        let total = self.data.len();
        proof {
            assert(index as nat * self.chunk_size as nat + self.chunk_size as nat
                <= total as nat);
        }
        let base = index * self.chunk_size;
        slice_subrange(self.data.as_slice(), base, base + self.chunk_size)
    }

    /// Returns an exclusive reference to the chunk at `index`.
    fn chunk_mut(&mut self, index: usize) -> (r: &mut [T])
        requires
            old(self).wf(),
            (index as nat) < old(self).spec_len(),
        ensures
            r@ == chunk_of(old(self)@, old(self).spec_chunk_size(), index as nat),
            final(self)@ == old(self)@.subrange(
                0,
                (index as nat * old(self).spec_chunk_size()) as int,
            ) + final(r)@ + old(self)@.subrange(
                (index as nat * old(self).spec_chunk_size()
                    + old(self).spec_chunk_size()) as int,
                old(self)@.len() as int,
            ),
            final(self).spec_len() == old(self).spec_len(),
            final(self).spec_chunk_size() == old(self).spec_chunk_size(),
            final(r)@.len() == old(self).spec_chunk_size() ==> final(self).spec_num_elements()
                == old(self).spec_num_elements() && final(self).wf(),
    {
        proof {
            lemma_chunk_in_range(
                self.num_chunks as nat,
                self.chunk_size as nat,
                index as nat,
                self.data@.len(),
            );
        }
        let total = self.data.len();
        proof {
            assert(index as nat * self.chunk_size as nat + self.chunk_size as nat
                <= total as nat);
        }
        let base = index * self.chunk_size;
        let chunk_size = self.chunk_size;
        let s = self.data.as_mut_slice();
        let (_left, rest) = s.split_at_mut(base);
        let (mid, _right) = rest.split_at_mut(chunk_size);
        mid
    }
}

impl<T: Copy> OwnedParChunkSlice<T> {
    /// Copies the chunk at `index` into `out` and returns it.
    fn copy_chunk_into(&self, index: usize, out: Vec<T>) -> (r: Vec<T>)
        requires
            self.wf(),
            (index as nat) < self.spec_len(),
            out@.len() == self.spec_chunk_size(),
        ensures
            r@ == chunk_of(self@, self.spec_chunk_size(), index as nat),
    {
        proof {
            lemma_chunk_in_range(
                self.num_chunks as nat,
                self.chunk_size as nat,
                index as nat,
                self.data@.len(),
            );
        }
        let total = self.data.len();
        proof {
            assert(index as nat * self.chunk_size as nat + self.chunk_size as nat
                <= total as nat);
        }
        let base = index * self.chunk_size;
        let mut out = out;
        let mut k: usize = 0;
        while k < self.chunk_size
            invariant
                self.wf(),
                (index as nat) < self.spec_len(),
                base as nat == index as nat * self.chunk_size as nat,
                base + self.chunk_size <= self.data@.len(),
                self.data@.len() <= usize::MAX,
                k <= self.chunk_size,
                out@.len() == self.chunk_size as nat,
                forall|j: int| 0 <= j < k ==> out@[j] == self.data@[base + j],
            decreases self.chunk_size - k,
        {
            out.set(k, self.data[base + k]);
            k = k + 1;
        }
        proof {
            assert(out@ =~= chunk_of(self@, self.spec_chunk_size(), index as nat));
        }
        out
    }

    /// Returns a fresh buffer holding a copy of the chunk at `index`.
    fn fresh_chunk_copy(&self, index: usize) -> (r: Vec<T>)
        requires
            self.wf(),
            (index as nat) < self.spec_len(),
        ensures
            r@ == chunk_of(self@, self.spec_chunk_size(), index as nat),
    {
        proof {
            lemma_chunk_in_range(
                self.num_chunks as nat,
                self.chunk_size as nat,
                index as nat,
                self.data@.len(),
            );
        }
        let total = self.data.len();
        proof {
            assert(index as nat * self.chunk_size as nat + self.chunk_size as nat
                <= total as nat);
        }
        let base = index * self.chunk_size;
        let mut out: Vec<T> = Vec::new();
        let mut k: usize = 0;
        while k < self.chunk_size
            invariant
                self.wf(),
                (index as nat) < self.spec_len(),
                base as nat == index as nat * self.chunk_size as nat,
                base + self.chunk_size <= self.data@.len(),
                self.data@.len() <= usize::MAX,
                k <= self.chunk_size,
                out@.len() == k as nat,
                forall|j: int| 0 <= j < k ==> out@[j] == self.data@[base + j],
            decreases self.chunk_size - k,
        {
            out.push(self.data[base + k]);
            k = k + 1;
        }
        proof {
            assert(out@ =~= chunk_of(self@, self.spec_chunk_size(), index as nat));
        }
        out
    }

    /// Overwrites the chunk at `index` with `values`.
    fn fill_chunk(&mut self, index: usize, values: &[T])
        requires
            old(self).wf(),
            (index as nat) < old(self).spec_len(),
            values@.len() == old(self).spec_chunk_size(),
        ensures
            final(self)@ == splice_chunk(
                old(self)@,
                old(self).spec_chunk_size(),
                index as nat,
                values@,
            ),
            final(self).spec_len() == old(self).spec_len(),
            final(self).spec_chunk_size() == old(self).spec_chunk_size(),
            final(self).spec_num_elements() == old(self).spec_num_elements(),
            final(self).wf(),
    {
        proof {
            lemma_chunk_in_range(
                self.num_chunks as nat,
                self.chunk_size as nat,
                index as nat,
                self.data@.len(),
            );
        }
        let total = self.data.len();
        proof {
            assert(index as nat * self.chunk_size as nat + self.chunk_size as nat
                <= total as nat);
        }
        let base = index * self.chunk_size;
        let mut k: usize = 0;
        while k < self.chunk_size
            invariant
                self.chunk_size == old(self).chunk_size,
                self.num_chunks == old(self).num_chunks,
                self.wf(),
                base as nat == index as nat * self.chunk_size as nat,
                base + self.chunk_size <= self.data@.len(),
                self.data@.len() <= usize::MAX,
                k <= self.chunk_size,
                values@.len() == self.chunk_size as nat,
                self.data@.len() == old(self).data@.len(),
                forall|j: int| 0 <= j < base ==> self.data@[j] == old(self).data@[j],
                forall|j: int| 0 <= j < k ==> self.data@[base + j] == values@[j],
                forall|j: int|
                    base + self.chunk_size <= j < self.data@.len() ==> self.data@[j] == old(
                        self,
                    ).data@[j],
            decreases self.chunk_size - k,
        {
            let v = values[k];
            self.data.set(base + k, v);
            k = k + 1;
        }
        proof {
            assert(self@ =~= splice_chunk(
                old(self)@,
                old(self).spec_chunk_size(),
                index as nat,
                values@,
            ));
        }
    }

}


impl<T> TrustedSizedCollection for OwnedParChunkSlice<T> {
    closed spec fn wf(&self) -> bool {
        self.chunk_size > 0 && self.num_chunks as nat * self.chunk_size as nat
            == self.data@.len()
    }

    closed spec fn spec_len(&self) -> nat {
        self.num_chunks as nat
    }

    fn len(&self) -> (r: usize) {
        self.num_chunks
    }

    fn is_empty(&self) -> (r: bool) {
        self.num_chunks == 0
    }
}

impl<T> TrustedChunkSizedCollection for OwnedParChunkSlice<T> {
    closed spec fn spec_chunk_size(&self) -> nat {
        self.chunk_size as nat
    }

    closed spec fn spec_num_elements(&self) -> nat {
        self.data@.len()
    }

    proof fn chunk_partition_exact(&self) {
    }

    fn chunk_size(&self) -> (r: usize) {
        self.chunk_size
    }

    fn num_chunks(&self) -> (r: usize) {
        self.num_chunks
    }

    fn num_elements(&self) -> (r: usize) {
        self.data.len()
    }
}

impl<T: Copy> UnsafeNoRefChunkIndex<T> for OwnedParChunkSlice<T> {
    proof fn elems_count(&self) {
    }

    fn get_values(&self, index: usize, out: Vec<T>) -> (r: Vec<T>) {
        self.copy_chunk_into(index, out)
    }

    fn get_values_unchecked(&self, index: usize, out: Vec<T>) -> (r: Vec<T>) {
        self.copy_chunk_into(index, out)
    }

    fn set_values(&mut self, index: usize, values: &[T]) {
        self.fill_chunk(index, values);
    }

    fn set_values_unchecked(&mut self, index: usize, values: &[T]) {
        self.fill_chunk(index, values);
    }
}

impl<T: Copy> UnsafeDataRaceChunkAccess<T> for OwnedParChunkSlice<T> {
    proof fn elems_count(&self) {
    }

    fn get(&self, index: usize) -> (r: Vec<T>) {
        self.fresh_chunk_copy(index)
    }

    fn get_unchecked(&self, index: usize) -> (r: Vec<T>) {
        self.fresh_chunk_copy(index)
    }

    fn set(&mut self, index: usize, values: &[T]) {
        self.fill_chunk(index, values);
    }

    fn set_unchecked(&mut self, index: usize, values: &[T]) {
        self.fill_chunk(index, values);
    }
}

impl<T> UnsafeChunkIndex<T> for OwnedParChunkSlice<T> {
    proof fn elems_count(&self) {
    }

    fn get(&self, index: usize) -> (r: &[T]) {
        self.chunk_ref(index)
    }

    fn get_unchecked(&self, index: usize) -> (r: &[T]) {
        self.chunk_ref(index)
    }

    fn get_mut(&mut self, index: usize) -> (r: &mut [T]) {
        self.chunk_mut(index)
    }

    fn get_mut_unchecked(&mut self, index: usize) -> (r: &mut [T]) {
        self.chunk_mut(index)
    }
}

} // verus!
