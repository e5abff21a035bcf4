//! The reference access tier: shared and exclusive references to elements.

use vstd::prelude::*;
use crate::collection::{TrustedSizedCollection, TrustedChunkSizedCollection, chunk_of};

verus! {

/// Reference access to single elements.
///
/// This is the most ergonomic tier: the returned reference behaves exactly
/// like an ordinary one.  The verifier enforces the aliasing discipline that
/// the references demand — at most one exclusive reference, or any number of
/// shared references, to the collection at a time — and the contracts pin the
/// value behind every returned reference.
pub trait UnsafeIndex<T>: TrustedSizedCollection + View<V = Seq<T>> {
    /// Indices and elements correspond one to one.
    proof fn elems_count(&self)
        requires
            self.wf(),
        ensures
            self@.len() == self.spec_len(),
    ;

    /// Returns a shared reference to the element at `index`.
    fn get(&self, index: usize) -> (r: &T)
        requires
            self.wf(),
            (index as nat) < self@.len(),
        ensures
            *r == self@[index as int],
    ;

    /// Returns a shared reference to the element at `index`; the caller has
    /// already established that the index is valid.
    fn get_unchecked(&self, index: usize) -> (r: &T)
        requires
            self.wf(),
            (index as nat) < self@.len(),
        ensures
            *r == self@[index as int],
    ;

    /// Returns an exclusive reference to the element at `index`.  Writing
    /// through it updates exactly that element and nothing else.
    fn get_mut(&mut self, index: usize) -> (r: &mut T)
        requires
            old(self).wf(),
            (index as nat) < old(self)@.len(),
        ensures
            *r == old(self)@[index as int],
            final(self)@ == old(self)@.update(index as int, *final(r)),
            final(self).spec_len() == old(self).spec_len(),
            final(self).wf(),
    ;

    /// Returns an exclusive reference to the element at `index`; the caller
    /// has already established that the index is valid.
    fn get_mut_unchecked(&mut self, index: usize) -> (r: &mut T)
        requires
            old(self).wf(),
            (index as nat) < old(self)@.len(),
        ensures
            *r == old(self)@[index as int],
            final(self)@ == old(self)@.update(index as int, *final(r)),
            final(self).spec_len() == old(self).spec_len(),
            final(self).wf(),
    ;
}

/// Reference access to whole chunks.
///
/// Chunk `index` covers the element indices
/// `[index * chunk_size, (index + 1) * chunk_size)`; the returned slice has
/// exactly `chunk_size` elements.
pub trait UnsafeChunkIndex<T>: TrustedChunkSizedCollection + View<V = Seq<T>> {
    /// The flattened contents cover exactly the advertised element count.
    proof fn elems_count(&self)
        requires
            self.wf(),
        ensures
            self@.len() == self.spec_num_elements(),
    ;

    /// Returns a shared reference to the chunk at `index`.
    fn get(&self, index: usize) -> (r: &[T])
        requires
            self.wf(),
            (index as nat) < self.spec_len(),
        ensures
            r@ == chunk_of(self@, self.spec_chunk_size(), index as nat),
    ;

    /// Returns a shared reference to the chunk at `index`; the caller has
    /// already established that the index is valid.
    fn get_unchecked(&self, index: usize) -> (r: &[T])
        requires
            self.wf(),
            (index as nat) < self.spec_len(),
        ensures
            r@ == chunk_of(self@, self.spec_chunk_size(), index as nat),
    ;

    /// Returns an exclusive reference to the chunk at `index`.  Writing
    /// through it updates exactly that chunk and nothing else.
    fn get_mut(&mut self, index: usize) -> (r: &mut [T])
        requires
            old(self).wf(),
            (index as nat) < old(self).spec_len(),
        ensures
            r@ == chunk_of(old(self)@, old(self).spec_chunk_size(), index as nat),
            final(self)@ == old(self)@.subrange(
                0,
                (index as nat * old(self).spec_chunk_size()) as int,
            ) + final(r)@ + old(self)@.subrange(
                (index as nat * old(self).spec_chunk_size()
                    + old(self).spec_chunk_size()) as int,
                old(self)@.len() as int,
            ),
            final(self).spec_len() == old(self).spec_len(),
            final(self).spec_chunk_size() == old(self).spec_chunk_size(),
            final(r)@.len() == old(self).spec_chunk_size() ==> final(self).spec_num_elements()
                == old(self).spec_num_elements() && final(self).wf(),
    ;

    /// Returns an exclusive reference to the chunk at `index`; the caller has
    /// already established that the index is valid.
    fn get_mut_unchecked(&mut self, index: usize) -> (r: &mut [T])
        requires
            old(self).wf(),
            (index as nat) < old(self).spec_len(),
        ensures
            r@ == chunk_of(old(self)@, old(self).spec_chunk_size(), index as nat),
            final(self)@ == old(self)@.subrange(
                0,
                (index as nat * old(self).spec_chunk_size()) as int,
            ) + final(r)@ + old(self)@.subrange(
                (index as nat * old(self).spec_chunk_size()
                    + old(self).spec_chunk_size()) as int,
                old(self)@.len() as int,
            ),
            final(self).spec_len() == old(self).spec_len(),
            final(self).spec_chunk_size() == old(self).spec_chunk_size(),
            final(r)@.len() == old(self).spec_chunk_size() ==> final(self).spec_num_elements()
                == old(self).spec_num_elements() && final(self).wf(),
    ;
}

/// Checked/unchecked equivalence for the reference getter: on a valid index
/// the two forms return references to the same element.
pub proof fn lemma_get_ref_checked_unchecked_agree<'a, T, C: UnsafeIndex<T>>(
    c: &'a C,
    index: usize,
    checked: &'a T,
    unchecked: &'a T,
)
    requires
        c.wf(),
        (index as nat) < c@.len(),
        call_ensures(C::get, (c, index), checked),
        call_ensures(C::get_unchecked, (c, index), unchecked),
    ensures
        *checked == *unchecked,
{
}

/// Checked/unchecked equivalence for the chunk reference getter: on a valid
/// chunk index the two forms return slices with the same elements.
pub proof fn lemma_chunk_ref_checked_unchecked_agree<'a, T, C: UnsafeChunkIndex<T>>(
    c: &'a C,
    index: usize,
    checked: &'a [T],
    unchecked: &'a [T],
)
    requires
        c.wf(),
        (index as nat) < c.spec_len(),
        call_ensures(C::get, (c, index), checked),
        call_ensures(C::get_unchecked, (c, index), unchecked),
    ensures
        checked@ == unchecked@,
{
}

} // verus!
