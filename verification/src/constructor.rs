//! Constructor utilities that allocate a fresh buffer and open it for
//! tiered access.

use vstd::prelude::*;
use vstd::pervasive::cloned;
use crate::collection::{divides_evenly, TrustedSizedCollection, TrustedChunkSizedCollection};
use crate::owned_slice::OwnedParSlice;
use crate::owned_chunk_slice::OwnedParChunkSlice;

verus! {

/// A fresh buffer of `len` elements, each produced by `T::default()`.
fn vec_with_default<T: Default>(len: usize) -> (r: Vec<T>)
    ensures
        r@.len() == len as nat,
        forall|j: int| 0 <= j < len ==> call_ensures(T::default, (), #[trigger] r@[j]),
{
    let mut data: Vec<T> = Vec::new();
    let mut k: usize = 0;
    while k < len
        invariant
            k <= len,
            data@.len() == k as nat,
            forall|j: int| 0 <= j < k ==> call_ensures(T::default, (), #[trigger] data@[j]),
        decreases len - k,
    {
        data.push(T::default());
        k = k + 1;
    }
    data
}

/// A fresh buffer of `len` elements, each a clone of `value`.
fn vec_with_value<T: Clone>(value: T, len: usize) -> (r: Vec<T>)
    ensures
        r@.len() == len as nat,
        forall|j: int| 0 <= j < len ==> cloned::<T>(value, #[trigger] r@[j]),
{
    let mut data: Vec<T> = Vec::new();
    let mut k: usize = 0;
    while k < len
        invariant
            k <= len,
            data@.len() == k as nat,
            forall|j: int| 0 <= j < k ==> cloned::<T>(value, #[trigger] data@[j]),
        decreases len - k,
    {
        data.push(value.clone());
        k = k + 1;
    }
    data
}

/// A fresh buffer of `len` elements, element `i` produced by `closure(i)`.
fn vec_with_closure<T, F: Fn(usize) -> T>(closure: F, len: usize) -> (r: Vec<T>)
    requires
        forall|i: usize| i < len ==> call_requires(closure, (i,)),
    ensures
        r@.len() == len as nat,
        forall|j: int|
            0 <= j < len ==> call_ensures(closure, (j as usize,), #[trigger] r@[j]),
{
    let mut data: Vec<T> = Vec::new();
    let mut k: usize = 0;
    while k < len
        invariant
            k <= len,
            data@.len() == k as nat,
            forall|i: usize| i < len ==> call_requires(closure, (i,)),
            forall|j: int|
                0 <= j < k ==> call_ensures(closure, (j as usize,), #[trigger] data@[j]),
        decreases len - k,
    {
        let v = closure(k);
        data.push(v);
        k = k + 1;
    }
    data
}

/// Constructors for buffers opened for reference access.
pub struct ParSlice;

impl ParSlice {
    /// A buffer of `len` elements, each produced by `T::default()`, opened
    /// for reference access.
    pub fn new<T: Default>(len: usize) -> (r: OwnedParSlice<T>)
        ensures
            r@.len() == len as nat,
            forall|j: int| 0 <= j < len ==> call_ensures(T::default, (), #[trigger] r@[j]),
            r.wf(),
            r.spec_len() == len as nat,
    {
        OwnedParSlice::from_vec(vec_with_default(len))
    }

    /// A buffer of `len` elements, each a clone of `value`, opened for
    /// reference access.
    pub fn with_value<T: Clone>(value: T, len: usize) -> (r: OwnedParSlice<T>)
        ensures
            r@.len() == len as nat,
            forall|j: int| 0 <= j < len ==> cloned::<T>(value, #[trigger] r@[j]),
            r.wf(),
            r.spec_len() == len as nat,
    {
        OwnedParSlice::from_vec(vec_with_value(value, len))
    }

    /// A buffer of `len` elements, element `i` produced by `closure(i)`,
    /// opened for reference access.
    pub fn with_closure<T, F: Fn(usize) -> T>(closure: F, len: usize) -> (r: OwnedParSlice<T>)
        requires
            forall|i: usize| i < len ==> call_requires(closure, (i,)),
        ensures
            r@.len() == len as nat,
            forall|j: int|
                0 <= j < len ==> call_ensures(closure, (j as usize,), #[trigger] r@[j]),
            r.wf(),
            r.spec_len() == len as nat,
    {
        OwnedParSlice::from_vec(vec_with_closure(closure, len))
    }

    /// A buffer of `len` elements, each produced by `T::default()`, opened
    /// for chunk-addressed reference access; `chunk_size` must divide `len` exactly.
    pub fn new_chunks<T: Default>(len: usize, chunk_size: usize) -> (r: OwnedParChunkSlice<T>)
        requires
            divides_evenly(len as nat, chunk_size as nat),
        ensures
            r@.len() == len as nat,
            forall|j: int| 0 <= j < len ==> call_ensures(T::default, (), #[trigger] r@[j]),
            r.wf(),
            r.spec_chunk_size() == chunk_size as nat,
            r.spec_len() == len as nat / (chunk_size as nat),
            r.spec_num_elements() == len as nat,
    {
        OwnedParChunkSlice::from_vec(vec_with_default(len), chunk_size)
    }

    /// A buffer of `len` elements, each a clone of `value`, opened for
    /// chunk-addressed reference access; `chunk_size` must divide `len` exactly.
    pub fn chunks_with_value<T: Clone>(value: T, len: usize, chunk_size: usize) -> (r:
        OwnedParChunkSlice<T>)
        requires
            divides_evenly(len as nat, chunk_size as nat),
        ensures
            r@.len() == len as nat,
            forall|j: int| 0 <= j < len ==> cloned::<T>(value, #[trigger] r@[j]),
            r.wf(),
            r.spec_chunk_size() == chunk_size as nat,
            r.spec_len() == len as nat / (chunk_size as nat),
            r.spec_num_elements() == len as nat,
    {
        OwnedParChunkSlice::from_vec(vec_with_value(value, len), chunk_size)
    }

    /// A buffer of `len` elements, element `i` produced by `closure(i)`,
    /// opened for chunk-addressed reference access; `chunk_size` must divide `len`
    /// exactly.
    pub fn chunks_with_closure<T, F: Fn(usize) -> T>(
        closure: F,
        len: usize,
        chunk_size: usize,
    ) -> (r: OwnedParChunkSlice<T>)
        requires
            forall|i: usize| i < len ==> call_requires(closure, (i,)),
            divides_evenly(len as nat, chunk_size as nat),
        ensures
            r@.len() == len as nat,
            forall|j: int|
                0 <= j < len ==> call_ensures(closure, (j as usize,), #[trigger] r@[j]),
            r.wf(),
            r.spec_chunk_size() == chunk_size as nat,
            r.spec_len() == len as nat / (chunk_size as nat),
            r.spec_num_elements() == len as nat,
    {
        OwnedParChunkSlice::from_vec(vec_with_closure(closure, len), chunk_size)
    }

    /// A buffer of `len` elements, each produced by `T::default()`, opened
    /// for copy-based access under the terse `get`/`set` names.
    pub fn new_data_race_par_slice<T: Default>(len: usize) -> (r: OwnedParSlice<T>)
        ensures
            r@.len() == len as nat,
            forall|j: int| 0 <= j < len ==> call_ensures(T::default, (), #[trigger] r@[j]),
            r.wf(),
            r.spec_len() == len as nat,
    {
        OwnedParSlice::from_vec(vec_with_default(len))
    }

    /// A buffer of `len` elements, each produced by `T::default()`, opened
    /// for chunk-addressed copy-based access under the terse `get`/`set`
    /// names; `chunk_size` must divide `len` exactly.
    pub fn new_data_race_par_chunk_slice<T: Default>(len: usize, chunk_size: usize) -> (r:
        OwnedParChunkSlice<T>)
        requires
            divides_evenly(len as nat, chunk_size as nat),
        ensures
            r@.len() == len as nat,
            forall|j: int| 0 <= j < len ==> call_ensures(T::default, (), #[trigger] r@[j]),
            r.wf(),
            r.spec_chunk_size() == chunk_size as nat,
            r.spec_len() == len as nat / (chunk_size as nat),
            r.spec_num_elements() == len as nat,
    {
        OwnedParChunkSlice::from_vec(vec_with_default(len), chunk_size)
    }

    /// A buffer of `len` elements, each produced by `T::default()`, opened
    /// for reference access.
    pub fn new_unsafe_par_slice<T: Default>(len: usize) -> (r: OwnedParSlice<T>)
        ensures
            r@.len() == len as nat,
            forall|j: int| 0 <= j < len ==> call_ensures(T::default, (), #[trigger] r@[j]),
            r.wf(),
            r.spec_len() == len as nat,
    {
        OwnedParSlice::from_vec(vec_with_default(len))
    }

    /// A buffer of `len` elements, each produced by `T::default()`, opened
    /// for chunk-addressed reference access; `chunk_size` must divide `len`
    /// exactly.
    pub fn new_unsafe_par_chunk_slice<T: Default>(len: usize, chunk_size: usize) -> (r:
        OwnedParChunkSlice<T>)
        requires
            divides_evenly(len as nat, chunk_size as nat),
        ensures
            r@.len() == len as nat,
            forall|j: int| 0 <= j < len ==> call_ensures(T::default, (), #[trigger] r@[j]),
            r.wf(),
            r.spec_chunk_size() == chunk_size as nat,
            r.spec_len() == len as nat / (chunk_size as nat),
            r.spec_num_elements() == len as nat,
    {
        OwnedParChunkSlice::from_vec(vec_with_default(len), chunk_size)
    }

    /// A buffer of `len` elements, each a clone of `value`, opened for
    /// copy-based access under the terse `get`/`set` names.
    pub fn data_race_par_slice_with_value<T: Clone>(value: T, len: usize) -> (r: OwnedParSlice<
        T,
    >)
        ensures
            r@.len() == len as nat,
            forall|j: int| 0 <= j < len ==> cloned::<T>(value, #[trigger] r@[j]),
            r.wf(),
            r.spec_len() == len as nat,
    {
        OwnedParSlice::from_vec(vec_with_value(value, len))
    }

    /// A buffer of `len` elements, element `i` produced by `closure(i)`,
    /// opened for copy-based access under the terse `get`/`set` names.
    pub fn data_race_par_slice_with<T, F: Fn(usize) -> T>(closure: F, len: usize) -> (r:
        OwnedParSlice<T>)
        requires
            forall|i: usize| i < len ==> call_requires(closure, (i,)),
        ensures
            r@.len() == len as nat,
            forall|j: int|
                0 <= j < len ==> call_ensures(closure, (j as usize,), #[trigger] r@[j]),
            r.wf(),
            r.spec_len() == len as nat,
    {
        OwnedParSlice::from_vec(vec_with_closure(closure, len))
    }

    /// A chunked buffer of `len` elements, each a clone of `value`, opened
    /// for copy-based access under the terse `get`/`set` names;
    /// `chunk_size` must divide `len` exactly.
    pub fn data_race_par_chunk_slice_with_value<T: Clone>(
        value: T,
        len: usize,
        chunk_size: usize,
    ) -> (r: OwnedParChunkSlice<T>)
        requires
            divides_evenly(len as nat, chunk_size as nat),
        ensures
            r@.len() == len as nat,
            forall|j: int| 0 <= j < len ==> cloned::<T>(value, #[trigger] r@[j]),
            r.wf(),
            r.spec_chunk_size() == chunk_size as nat,
            r.spec_len() == len as nat / (chunk_size as nat),
            r.spec_num_elements() == len as nat,
    {
        OwnedParChunkSlice::from_vec(vec_with_value(value, len), chunk_size)
    }

    /// A chunked buffer of `len` elements, element `i` produced by
    /// `closure(i)`, opened for copy-based access under the terse
    /// `get`/`set` names; `chunk_size` must divide `len` exactly.
    pub fn data_race_par_chunk_slice_with<T, F: Fn(usize) -> T>(
        closure: F,
        len: usize,
        chunk_size: usize,
    ) -> (r: OwnedParChunkSlice<T>)
        requires
            forall|i: usize| i < len ==> call_requires(closure, (i,)),
            divides_evenly(len as nat, chunk_size as nat),
        ensures
            r@.len() == len as nat,
            forall|j: int|
                0 <= j < len ==> call_ensures(closure, (j as usize,), #[trigger] r@[j]),
            r.wf(),
            r.spec_chunk_size() == chunk_size as nat,
            r.spec_len() == len as nat / (chunk_size as nat),
            r.spec_num_elements() == len as nat,
    {
        OwnedParChunkSlice::from_vec(vec_with_closure(closure, len), chunk_size)
    }

    /// A buffer of `len` elements, each a clone of `value`, opened for
    /// reference access.
    pub fn unsafe_par_slice_with_value<T: Clone>(value: T, len: usize) -> (r: OwnedParSlice<T>)
        ensures
            r@.len() == len as nat,
            forall|j: int| 0 <= j < len ==> cloned::<T>(value, #[trigger] r@[j]),
            r.wf(),
            r.spec_len() == len as nat,
    {
        OwnedParSlice::from_vec(vec_with_value(value, len))
    }

    /// A buffer of `len` elements, element `i` produced by `closure(i)`,
    /// opened for reference access.
    pub fn unsafe_par_slice_with<T, F: Fn(usize) -> T>(closure: F, len: usize) -> (r:
        OwnedParSlice<T>)
        requires
            forall|i: usize| i < len ==> call_requires(closure, (i,)),
        ensures
            r@.len() == len as nat,
            forall|j: int|
                0 <= j < len ==> call_ensures(closure, (j as usize,), #[trigger] r@[j]),
            r.wf(),
            r.spec_len() == len as nat,
    {
        OwnedParSlice::from_vec(vec_with_closure(closure, len))
    }

    /// A chunked buffer of `len` elements, each a clone of `value`, opened
    /// for reference access; `chunk_size` must divide `len` exactly.
    pub fn unsafe_par_chunk_slice_with_value<T: Clone>(
        value: T,
        len: usize,
        chunk_size: usize,
    ) -> (r: OwnedParChunkSlice<T>)
        requires
            divides_evenly(len as nat, chunk_size as nat),
        ensures
            r@.len() == len as nat,
            forall|j: int| 0 <= j < len ==> cloned::<T>(value, #[trigger] r@[j]),
            r.wf(),
            r.spec_chunk_size() == chunk_size as nat,
            r.spec_len() == len as nat / (chunk_size as nat),
            r.spec_num_elements() == len as nat,
    {
        OwnedParChunkSlice::from_vec(vec_with_value(value, len), chunk_size)
    }

    /// A chunked buffer of `len` elements, element `i` produced by
    /// `closure(i)`, opened for reference access; `chunk_size` must divide
    /// `len` exactly.
    pub fn unsafe_par_chunk_slice_with<T, F: Fn(usize) -> T>(
        closure: F,
        len: usize,
        chunk_size: usize,
    ) -> (r: OwnedParChunkSlice<T>)
        requires
            forall|i: usize| i < len ==> call_requires(closure, (i,)),
            divides_evenly(len as nat, chunk_size as nat),
        ensures
            r@.len() == len as nat,
            forall|j: int|
                0 <= j < len ==> call_ensures(closure, (j as usize,), #[trigger] r@[j]),
            r.wf(),
            r.spec_chunk_size() == chunk_size as nat,
            r.spec_len() == len as nat / (chunk_size as nat),
            r.spec_num_elements() == len as nat,
    {
        OwnedParChunkSlice::from_vec(vec_with_closure(closure, len), chunk_size)
    }
}

/// Constructors for buffers opened for copy-based access under the terse `get`/`set` names.
pub struct DataRaceParSlice;

impl DataRaceParSlice {
    /// A buffer of `len` elements, each produced by `T::default()`, opened
    /// for copy-based access under the terse `get`/`set` names.
    pub fn new<T: Default>(len: usize) -> (r: OwnedParSlice<T>)
        ensures
            r@.len() == len as nat,
            forall|j: int| 0 <= j < len ==> call_ensures(T::default, (), #[trigger] r@[j]),
            r.wf(),
            r.spec_len() == len as nat,
    {
        OwnedParSlice::from_vec(vec_with_default(len))
    }

    /// A buffer of `len` elements, each a clone of `value`, opened for
    /// copy-based access under the terse `get`/`set` names.
    pub fn with_value<T: Clone>(value: T, len: usize) -> (r: OwnedParSlice<T>)
        ensures
            r@.len() == len as nat,
            forall|j: int| 0 <= j < len ==> cloned::<T>(value, #[trigger] r@[j]),
            r.wf(),
            r.spec_len() == len as nat,
    {
        OwnedParSlice::from_vec(vec_with_value(value, len))
    }

    /// A buffer of `len` elements, element `i` produced by `closure(i)`,
    /// opened for copy-based access under the terse `get`/`set` names.
    pub fn with_closure<T, F: Fn(usize) -> T>(closure: F, len: usize) -> (r: OwnedParSlice<T>)
        requires
            forall|i: usize| i < len ==> call_requires(closure, (i,)),
        ensures
            r@.len() == len as nat,
            forall|j: int|
                0 <= j < len ==> call_ensures(closure, (j as usize,), #[trigger] r@[j]),
            r.wf(),
            r.spec_len() == len as nat,
    {
        OwnedParSlice::from_vec(vec_with_closure(closure, len))
    }

    /// A buffer of `len` elements, each produced by `T::default()`, opened
    /// for chunk-addressed copy-based access under the terse `get`/`set` names; `chunk_size` must divide `len` exactly.
    pub fn new_chunks<T: Default>(len: usize, chunk_size: usize) -> (r: OwnedParChunkSlice<T>)
        requires
            divides_evenly(len as nat, chunk_size as nat),
        ensures
            r@.len() == len as nat,
            forall|j: int| 0 <= j < len ==> call_ensures(T::default, (), #[trigger] r@[j]),
            r.wf(),
            r.spec_chunk_size() == chunk_size as nat,
            r.spec_len() == len as nat / (chunk_size as nat),
            r.spec_num_elements() == len as nat,
    {
        OwnedParChunkSlice::from_vec(vec_with_default(len), chunk_size)
    }

    /// A buffer of `len` elements, each a clone of `value`, opened for
    /// chunk-addressed copy-based access under the terse `get`/`set` names; `chunk_size` must divide `len` exactly.
    pub fn chunks_with_value<T: Clone>(value: T, len: usize, chunk_size: usize) -> (r:
        OwnedParChunkSlice<T>)
        requires
            divides_evenly(len as nat, chunk_size as nat),
        ensures
            r@.len() == len as nat,
            forall|j: int| 0 <= j < len ==> cloned::<T>(value, #[trigger] r@[j]),
            r.wf(),
            r.spec_chunk_size() == chunk_size as nat,
            r.spec_len() == len as nat / (chunk_size as nat),
            r.spec_num_elements() == len as nat,
    {
        OwnedParChunkSlice::from_vec(vec_with_value(value, len), chunk_size)
    }

    /// A buffer of `len` elements, element `i` produced by `closure(i)`,
    /// opened for chunk-addressed copy-based access under the terse `get`/`set` names; `chunk_size` must divide `len`
    /// exactly.
    pub fn chunks_with_closure<T, F: Fn(usize) -> T>(
        closure: F,
        len: usize,
        chunk_size: usize,
    ) -> (r: OwnedParChunkSlice<T>)
        requires
            forall|i: usize| i < len ==> call_requires(closure, (i,)),
            divides_evenly(len as nat, chunk_size as nat),
        ensures
            r@.len() == len as nat,
            forall|j: int|
                0 <= j < len ==> call_ensures(closure, (j as usize,), #[trigger] r@[j]),
            r.wf(),
            r.spec_chunk_size() == chunk_size as nat,
            r.spec_len() == len as nat / (chunk_size as nat),
            r.spec_num_elements() == len as nat,
    {
        OwnedParChunkSlice::from_vec(vec_with_closure(closure, len), chunk_size)
    }
}

/// Constructors for buffers opened for copy-based access through `get_value`/`set_value`.
pub struct NoRefParSlice;

impl NoRefParSlice {
    /// A buffer of `len` elements, each produced by `T::default()`, opened
    /// for copy-based access through `get_value`/`set_value`.
    pub fn new<T: Default>(len: usize) -> (r: OwnedParSlice<T>)
        ensures
            r@.len() == len as nat,
            forall|j: int| 0 <= j < len ==> call_ensures(T::default, (), #[trigger] r@[j]),
            r.wf(),
            r.spec_len() == len as nat,
    {
        OwnedParSlice::from_vec(vec_with_default(len))
    }

    /// A buffer of `len` elements, each a clone of `value`, opened for
    /// copy-based access through `get_value`/`set_value`.
    pub fn with_value<T: Clone>(value: T, len: usize) -> (r: OwnedParSlice<T>)
        ensures
            r@.len() == len as nat,
            forall|j: int| 0 <= j < len ==> cloned::<T>(value, #[trigger] r@[j]),
            r.wf(),
            r.spec_len() == len as nat,
    {
        OwnedParSlice::from_vec(vec_with_value(value, len))
    }

    /// A buffer of `len` elements, element `i` produced by `closure(i)`,
    /// opened for copy-based access through `get_value`/`set_value`.
    pub fn with_closure<T, F: Fn(usize) -> T>(closure: F, len: usize) -> (r: OwnedParSlice<T>)
        requires
            forall|i: usize| i < len ==> call_requires(closure, (i,)),
        ensures
            r@.len() == len as nat,
            forall|j: int|
                0 <= j < len ==> call_ensures(closure, (j as usize,), #[trigger] r@[j]),
            r.wf(),
            r.spec_len() == len as nat,
    {
        OwnedParSlice::from_vec(vec_with_closure(closure, len))
    }

    /// A buffer of `len` elements, each produced by `T::default()`, opened
    /// for chunk-addressed copy-based access through `get_value`/`set_value`; `chunk_size` must divide `len` exactly.
    pub fn new_chunks<T: Default>(len: usize, chunk_size: usize) -> (r: OwnedParChunkSlice<T>)
        requires
            divides_evenly(len as nat, chunk_size as nat),
        ensures
            r@.len() == len as nat,
            forall|j: int| 0 <= j < len ==> call_ensures(T::default, (), #[trigger] r@[j]),
            r.wf(),
            r.spec_chunk_size() == chunk_size as nat,
            r.spec_len() == len as nat / (chunk_size as nat),
            r.spec_num_elements() == len as nat,
    {
        OwnedParChunkSlice::from_vec(vec_with_default(len), chunk_size)
    }

    /// A buffer of `len` elements, each a clone of `value`, opened for
    /// chunk-addressed copy-based access through `get_value`/`set_value`; `chunk_size` must divide `len` exactly.
    pub fn chunks_with_value<T: Clone>(value: T, len: usize, chunk_size: usize) -> (r:
        OwnedParChunkSlice<T>)
        requires
            divides_evenly(len as nat, chunk_size as nat),
        ensures
            r@.len() == len as nat,
            forall|j: int| 0 <= j < len ==> cloned::<T>(value, #[trigger] r@[j]),
            r.wf(),
            r.spec_chunk_size() == chunk_size as nat,
            r.spec_len() == len as nat / (chunk_size as nat),
            r.spec_num_elements() == len as nat,
    {
        OwnedParChunkSlice::from_vec(vec_with_value(value, len), chunk_size)
    }

    /// A buffer of `len` elements, element `i` produced by `closure(i)`,
    /// opened for chunk-addressed copy-based access through `get_value`/`set_value`; `chunk_size` must divide `len`
    /// exactly.
    pub fn chunks_with_closure<T, F: Fn(usize) -> T>(
        closure: F,
        len: usize,
        chunk_size: usize,
    ) -> (r: OwnedParChunkSlice<T>)
        requires
            forall|i: usize| i < len ==> call_requires(closure, (i,)),
            divides_evenly(len as nat, chunk_size as nat),
        ensures
            r@.len() == len as nat,
            forall|j: int|
                0 <= j < len ==> call_ensures(closure, (j as usize,), #[trigger] r@[j]),
            r.wf(),
            r.spec_chunk_size() == chunk_size as nat,
            r.spec_len() == len as nat / (chunk_size as nat),
            r.spec_num_elements() == len as nat,
    {
        OwnedParChunkSlice::from_vec(vec_with_closure(closure, len), chunk_size)
    }
}

/// Constructors for buffers opened for reference access through `get`/`get_mut`.
pub struct UnsafeParSlice;

impl UnsafeParSlice {
    /// A buffer of `len` elements, each produced by `T::default()`, opened
    /// for reference access through `get`/`get_mut`.
    pub fn new<T: Default>(len: usize) -> (r: OwnedParSlice<T>)
        ensures
            r@.len() == len as nat,
            forall|j: int| 0 <= j < len ==> call_ensures(T::default, (), #[trigger] r@[j]),
            r.wf(),
            r.spec_len() == len as nat,
    {
        OwnedParSlice::from_vec(vec_with_default(len))
    }

    /// A buffer of `len` elements, each a clone of `value`, opened for
    /// reference access through `get`/`get_mut`.
    pub fn with_value<T: Clone>(value: T, len: usize) -> (r: OwnedParSlice<T>)
        ensures
            r@.len() == len as nat,
            forall|j: int| 0 <= j < len ==> cloned::<T>(value, #[trigger] r@[j]),
            r.wf(),
            r.spec_len() == len as nat,
    {
        OwnedParSlice::from_vec(vec_with_value(value, len))
    }

    /// A buffer of `len` elements, element `i` produced by `closure(i)`,
    /// opened for reference access through `get`/`get_mut`.
    pub fn with_closure<T, F: Fn(usize) -> T>(closure: F, len: usize) -> (r: OwnedParSlice<T>)
        requires
            forall|i: usize| i < len ==> call_requires(closure, (i,)),
        ensures
            r@.len() == len as nat,
            forall|j: int|
                0 <= j < len ==> call_ensures(closure, (j as usize,), #[trigger] r@[j]),
            r.wf(),
            r.spec_len() == len as nat,
    {
        OwnedParSlice::from_vec(vec_with_closure(closure, len))
    }

    /// A buffer of `len` elements, each produced by `T::default()`, opened
    /// for chunk-addressed reference access through `get`/`get_mut`; `chunk_size` must divide `len` exactly.
    pub fn new_chunks<T: Default>(len: usize, chunk_size: usize) -> (r: OwnedParChunkSlice<T>)
        requires
            divides_evenly(len as nat, chunk_size as nat),
        ensures
            r@.len() == len as nat,
            forall|j: int| 0 <= j < len ==> call_ensures(T::default, (), #[trigger] r@[j]),
            r.wf(),
            r.spec_chunk_size() == chunk_size as nat,
            r.spec_len() == len as nat / (chunk_size as nat),
            r.spec_num_elements() == len as nat,
    {
        OwnedParChunkSlice::from_vec(vec_with_default(len), chunk_size)
    }

    /// A buffer of `len` elements, each a clone of `value`, opened for
    /// chunk-addressed reference access through `get`/`get_mut`; `chunk_size` must divide `len` exactly.
    pub fn chunks_with_value<T: Clone>(value: T, len: usize, chunk_size: usize) -> (r:
        OwnedParChunkSlice<T>)
        requires
            divides_evenly(len as nat, chunk_size as nat),
        ensures
            r@.len() == len as nat,
            forall|j: int| 0 <= j < len ==> cloned::<T>(value, #[trigger] r@[j]),
            r.wf(),
            r.spec_chunk_size() == chunk_size as nat,
            r.spec_len() == len as nat / (chunk_size as nat),
            r.spec_num_elements() == len as nat,
    {
        OwnedParChunkSlice::from_vec(vec_with_value(value, len), chunk_size)
    }

    /// A buffer of `len` elements, element `i` produced by `closure(i)`,
    /// opened for chunk-addressed reference access through `get`/`get_mut`; `chunk_size` must divide `len`
    /// exactly.
    pub fn chunks_with_closure<T, F: Fn(usize) -> T>(
        closure: F,
        len: usize,
        chunk_size: usize,
    ) -> (r: OwnedParChunkSlice<T>)
        requires
            forall|i: usize| i < len ==> call_requires(closure, (i,)),
            divides_evenly(len as nat, chunk_size as nat),
        ensures
            r@.len() == len as nat,
            forall|j: int|
                0 <= j < len ==> call_ensures(closure, (j as usize,), #[trigger] r@[j]),
            r.wf(),
            r.spec_chunk_size() == chunk_size as nat,
            r.spec_len() == len as nat / (chunk_size as nat),
            r.spec_num_elements() == len as nat,
    {
        OwnedParChunkSlice::from_vec(vec_with_closure(closure, len), chunk_size)
    }
}

} // verus!
