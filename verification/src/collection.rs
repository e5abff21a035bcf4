//! Size and shape contracts shared by all tiered wrappers.

use vstd::prelude::*;

verus! {

/// A collection with a fixed element count.
///
/// Every tiered wrapper asserts, through this trait, that its size never
/// changes for the lifetime of the wrapper.  The contracts pin `len` to the
/// abstract size and make `is_empty` hold exactly when that size is zero.
pub trait TrustedSizedCollection {
    /// The internal well-formedness that constructors establish and every
    /// operation preserves.
    spec fn wf(&self) -> bool;

    /// The abstract number of addressable entries in the collection.
    spec fn spec_len(&self) -> nat;

    /// Returns the number of addressable entries in the collection.
    fn len(&self) -> (r: usize)
        requires
            self.wf(),
        ensures
            r as nat == self.spec_len(),
    ;

    /// Returns `true` if and only if the collection has no entries.
    fn is_empty(&self) -> (r: bool)
        requires
            self.wf(),
        ensures
            r <==> self.spec_len() == 0,
    ;
}

/// A sized collection whose elements are grouped into non-overlapping runs of
/// equal length.
///
/// For a chunked collection, `len` counts chunks, not elements: chunk `i`
/// covers the element indices `[i * chunk_size, (i + 1) * chunk_size)`.  The
/// partition is exact: `num_elements == num_chunks * chunk_size`, with no
/// remainder elements.
pub trait TrustedChunkSizedCollection: TrustedSizedCollection {
    /// The abstract number of elements in each chunk.
    spec fn spec_chunk_size(&self) -> nat;

    /// The abstract total number of elements over all chunks.
    spec fn spec_num_elements(&self) -> nat;

    /// The chunk partition is exact: the element count is the chunk count
    /// times the chunk size.
    proof fn chunk_partition_exact(&self)
        requires
            self.wf(),
        ensures
            self.spec_num_elements() == self.spec_len() * self.spec_chunk_size(),
    ;

    /// Returns the number of elements in each chunk.
    fn chunk_size(&self) -> (r: usize)
        requires
            self.wf(),
        ensures
            r as nat == self.spec_chunk_size(),
    ;

    /// Returns the number of chunks in the collection; an alias of `len`.
    fn num_chunks(&self) -> (r: usize)
        requires
            self.wf(),
        ensures
            r as nat == self.spec_len(),
    ;

    /// Returns the total number of elements in the collection.
    fn num_elements(&self) -> (r: usize)
        requires
            self.wf(),
        ensures
            r as nat == self.spec_num_elements(),
    ;
}

impl<T> TrustedSizedCollection for Vec<T> {
    open spec fn wf(&self) -> bool {
        true
    }

    open spec fn spec_len(&self) -> nat {
        self@.len()
    }

    fn len(&self) -> (r: usize) {
        self.len()
    }

    fn is_empty(&self) -> (r: bool) {
        self.len() == 0
    }
}

/// Holds when a buffer of `len` elements splits exactly into chunks of
/// `chunk_size` elements each.
pub open spec fn divides_evenly(len: nat, chunk_size: nat) -> bool {
    chunk_size > 0 && len % chunk_size == 0
}

/// The run of `chunk_size` elements that chunk `index` covers.
pub open spec fn chunk_of<T>(elems: Seq<T>, chunk_size: nat, index: nat) -> Seq<T> {
    elems.subrange((index * chunk_size) as int, (index * chunk_size + chunk_size) as int)
}

/// `elems` with the chunk at `index` replaced by `values` and everything
/// outside that chunk unchanged.
pub open spec fn splice_chunk<T>(
    elems: Seq<T>,
    chunk_size: nat,
    index: nat,
    values: Seq<T>,
) -> Seq<T> {
    elems.subrange(0, (index * chunk_size) as int) + values + elems.subrange(
        (index * chunk_size + chunk_size) as int,
        elems.len() as int,
    )
}


} // verus!
