//! Capability-tiered access to a contiguous, fixed-size buffer.
//!
//! A caller converts a plain `Vec` into a tiered wrapper for a scoped phase
//! of index-addressed accesses, then converts it back.  Two tiers of access
//! are offered over the same storage:
//!
//! * a *copy-based* tier ([`UnsafeNoRefIndex`], [`UnsafeNoRefChunkIndex`];
//!   also [`UnsafeDataRaceAccess`], [`UnsafeDataRaceChunkAccess`] under the
//!   terse `get`/`set` names): values move by copy only, and no
//!   reference to an element ever escapes;
//! * a *reference* tier ([`UnsafeIndex`], [`UnsafeChunkIndex`]): shared and
//!   exclusive references to single elements or whole chunks, with the
//!   aliasing discipline enforced by the verifier.
//!
//! Every accessor comes in a checked and an unchecked variant; both carry
//! the same index-validity precondition, which the verifier discharges
//! statically at each call site, so no access can go out of bounds and no
//! verified function here panics.
//!
//! Chunked wrappers partition the buffer into non-overlapping runs of equal
//! length; the partition is exact (`num_elements == num_chunks *
//! chunk_size`) and fixed at construction.  The size and shape contracts
//! live in [`TrustedSizedCollection`] and [`TrustedChunkSizedCollection`],
//! the conversions in [`IntoParIndex`], and the index adapter in
//! [`IndexWrapper`].  The [`writes`] module states the law this design is
//! built for: writers that touch disjoint index sets produce the same final
//! contents under every schedule.

pub mod collection;
pub mod no_ref;
pub mod data_race;
pub mod unsafe_index;
pub mod owned_slice;
pub mod owned_chunk_slice;
pub mod conversion;
pub mod constructor;
pub mod indexing;
pub mod index_wrapper;
pub mod writes;

pub use collection::{TrustedSizedCollection, TrustedChunkSizedCollection};
pub use no_ref::{UnsafeNoRefIndex, UnsafeNoRefChunkIndex};
pub use data_race::{UnsafeDataRaceAccess, UnsafeDataRaceChunkAccess};
pub use unsafe_index::{UnsafeIndex, UnsafeChunkIndex};
pub use owned_slice::OwnedParSlice;
pub use owned_chunk_slice::OwnedParChunkSlice;
pub use conversion::IntoParIndex;
pub use constructor::{ParSlice, DataRaceParSlice, NoRefParSlice, UnsafeParSlice};
pub use indexing::AsUsize;
pub use index_wrapper::IndexWrapper;
