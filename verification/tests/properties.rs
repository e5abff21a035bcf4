//! Behavioral properties of the tiered wrappers on concrete values.

use par_slice::DataRaceParSlice;
use par_slice::IndexWrapper;
use par_slice::IntoParIndex;
use par_slice::NoRefParSlice;
use par_slice::OwnedParChunkSlice;
use par_slice::OwnedParSlice;
use par_slice::ParSlice;
use par_slice::TrustedChunkSizedCollection;
use par_slice::TrustedSizedCollection;
use par_slice::UnsafeDataRaceAccess;
use par_slice::UnsafeNoRefChunkIndex;
use par_slice::UnsafeNoRefIndex;
use par_slice::UnsafeParSlice;
use par_slice::AsUsize;

#[test]
fn checked_unchecked_equivalence_no_ref() {
    let slice: OwnedParSlice<i32> = vec![5, 6, 7].into_par_index_no_ref();
    for i in 0..3 {
        assert_eq!(slice.get_value(i), slice.get_value_unchecked(i));
    }
}

#[test]
fn checked_unchecked_equivalence_data_race() {
    let slice = vec![5, 6, 7].into_data_race_par_slice();
    for i in 0..3 {
        assert_eq!(
            UnsafeDataRaceAccess::get(&slice, i),
            slice.get_unchecked(i)
        );
    }
}

#[test]
fn checked_unchecked_set_equivalence() {
    let mut a = vec![0; 3].into_par_index_no_ref();
    let mut b = vec![0; 3].into_par_index_no_ref();
    a.set_value(1, 9);
    b.set_value_unchecked(1, 9);
    let a: Vec<i32> = a.into();
    let b: Vec<i32> = b.into();
    assert_eq!(a, b);
}

#[test]
fn len_and_is_empty_agree() {
    let filled: OwnedParSlice<u8> = vec![1, 2, 3, 4, 5].into_par_index_no_ref();
    assert_eq!(filled.len(), 5);
    assert!(!filled.is_empty());

    let empty: OwnedParSlice<u8> = Vec::new().into_par_index_no_ref();
    assert_eq!(empty.len(), 0);
    assert!(empty.is_empty());
}

#[test]
fn chunk_partition_shape() {
    let slice: OwnedParChunkSlice<u8> = vec![0; 20].into_par_chunk_index_no_ref(5);
    assert_eq!(slice.chunk_size(), 5);
    assert_eq!(slice.num_chunks(), 4);
    assert_eq!(slice.len(), 4);
    assert_eq!(slice.num_elements(), 20);
    assert_eq!(slice.num_elements(), slice.num_chunks() * slice.chunk_size());
}

#[test]
fn round_trip_identity_without_writes() {
    let original = vec![3, 1, 4, 1, 5, 9, 2, 6];
    let slice = original.clone().into_par_index_no_ref();
    let back: Vec<i32> = slice.into();
    assert_eq!(back, original);

    let slice = original.clone().into_unsafe_par_chunk_slice(4);
    let back: Vec<i32> = slice.into();
    assert_eq!(back, original);
}

#[test]
fn round_trip_matches_writes_inside_and_original_outside() {
    let original = vec![10, 20, 30, 40, 50];
    let mut slice = original.clone().into_par_index_no_ref();
    slice.set_value(1, 21);
    slice.set_value(3, 41);
    let back: Vec<i32> = slice.into();
    assert_eq!(back, vec![10, 21, 30, 41, 50]);
}

#[test]
fn disjoint_writes_deterministic() {
    // Writer A covers the even indices with 42, writer B the odd ones with
    // 69; either completion order leaves the same contents.
    let mut first = vec![0; 6].into_par_index_no_ref();
    for i in [0, 2, 4] {
        first.set_value(i, 42);
    }
    for i in [1, 3, 5] {
        first.set_value(i, 69);
    }

    let mut second = vec![0; 6].into_par_index_no_ref();
    for i in [1, 3, 5] {
        second.set_value(i, 69);
    }
    for i in [0, 2, 4] {
        second.set_value(i, 42);
    }

    let first: Vec<i32> = first.into();
    let second: Vec<i32> = second.into();
    assert_eq!(first, vec![42, 69, 42, 69, 42, 69]);
    assert_eq!(second, vec![42, 69, 42, 69, 42, 69]);
}

#[test]
fn batched_writes_match_single_writes() {
    let mut batched = vec![0; 6].into_par_index_no_ref();
    batched.perform_writes(&vec![(0, 42), (2, 42), (4, 42), (1, 69), (3, 69), (5, 69)]);
    let batched: Vec<i32> = batched.into();
    assert_eq!(batched, vec![42, 69, 42, 69, 42, 69]);
}

#[test]
fn repeated_writes_last_one_wins() {
    let mut slice = vec![0; 3].into_par_index_no_ref();
    slice.perform_writes(&vec![(1, 5), (1, 6), (1, 7)]);
    let out: Vec<i32> = slice.into();
    assert_eq!(out, vec![0, 7, 0]);
}

#[test]
fn chunk_write_then_read() {
    let mut slice = vec![1, 2, 3, 4].into_par_chunk_index_no_ref(2);
    slice.set_values(1, &[42, 69]);
    let read = slice.get_values(0, vec![0; 2]);
    assert_eq!(read, vec![1, 2]);
    let out: Vec<i32> = slice.into();
    assert_eq!(out, vec![1, 2, 42, 69]);
}

#[test]
fn constructors_fill_with_default() {
    let slice: OwnedParSlice<u64> = NoRefParSlice::new(4);
    let out: Vec<u64> = slice.into();
    assert_eq!(out, vec![0, 0, 0, 0]);
}

#[test]
fn constructors_fill_with_value() {
    let slice = DataRaceParSlice::with_value(7u32, 3);
    let out: Vec<u32> = slice.into();
    assert_eq!(out, vec![7, 7, 7]);
}

#[test]
fn constructors_fill_with_closure() {
    let slice = UnsafeParSlice::with_closure(|i| i * 10, 4);
    let out: Vec<usize> = slice.into();
    assert_eq!(out, vec![0, 10, 20, 30]);
}

#[test]
fn chunk_constructors_shape_and_fill() {
    let slice: OwnedParChunkSlice<u64> = ParSlice::new_chunks(6, 2);
    assert_eq!(slice.num_chunks(), 3);
    assert_eq!(slice.chunk_size(), 2);
    let out: Vec<u64> = slice.into();
    assert_eq!(out, vec![0; 6]);

    let slice = NoRefParSlice::chunks_with_value(5u8, 4, 2);
    let out: Vec<u8> = slice.into();
    assert_eq!(out, vec![5, 5, 5, 5]);

    let slice = DataRaceParSlice::chunks_with_closure(|i| i + 1, 4, 2);
    let out: Vec<usize> = slice.into();
    assert_eq!(out, vec![1, 2, 3, 4]);
}

#[test]
fn alias_constructor_names() {
    let slice: OwnedParSlice<i64> = ParSlice::new_data_race_par_slice(2);
    let out: Vec<i64> = slice.into();
    assert_eq!(out, vec![0, 0]);

    let slice: OwnedParChunkSlice<i64> = ParSlice::new_data_race_par_chunk_slice(4, 2);
    let out: Vec<i64> = slice.into();
    assert_eq!(out, vec![0, 0, 0, 0]);

    let slice: OwnedParSlice<i64> = ParSlice::new_unsafe_par_slice(2);
    let out: Vec<i64> = slice.into();
    assert_eq!(out, vec![0, 0]);

    let slice: OwnedParChunkSlice<i64> = ParSlice::new_unsafe_par_chunk_slice(4, 2);
    let out: Vec<i64> = slice.into();
    assert_eq!(out, vec![0, 0, 0, 0]);
}

#[test]
fn alias_filled_constructors() {
    let slice = ParSlice::data_race_par_slice_with_value(3u8, 4);
    let out: Vec<u8> = slice.into();
    assert_eq!(out, vec![3, 3, 3, 3]);

    let slice = ParSlice::data_race_par_slice_with(|i| i * 2, 3);
    let out: Vec<usize> = slice.into();
    assert_eq!(out, vec![0, 2, 4]);

    let slice = ParSlice::data_race_par_chunk_slice_with_value(1u8, 4, 2);
    let out: Vec<u8> = slice.into();
    assert_eq!(out, vec![1, 1, 1, 1]);

    let slice = ParSlice::data_race_par_chunk_slice_with(|i| i, 4, 2);
    let out: Vec<usize> = slice.into();
    assert_eq!(out, vec![0, 1, 2, 3]);

    let slice = ParSlice::unsafe_par_slice_with_value(9i16, 2);
    let out: Vec<i16> = slice.into();
    assert_eq!(out, vec![9, 9]);

    let slice = ParSlice::unsafe_par_slice_with(|i| i + 7, 2);
    let out: Vec<usize> = slice.into();
    assert_eq!(out, vec![7, 8]);

    let slice = ParSlice::unsafe_par_chunk_slice_with_value(4u64, 4, 2);
    let out: Vec<u64> = slice.into();
    assert_eq!(out, vec![4, 4, 4, 4]);

    let slice = ParSlice::unsafe_par_chunk_slice_with(|i| i * i, 4, 2);
    let out: Vec<usize> = slice.into();
    assert_eq!(out, vec![0, 1, 4, 9]);
}

#[test]
fn as_usize_values() {
    assert_eq!(3usize.as_usize(), 3);
    assert_eq!(4u8.as_usize(), 4);
    assert_eq!(5u16.as_usize(), 5);
    assert_eq!(6u32.as_usize(), 6);
}

#[test]
fn index_wrapper_maps_indices() {
    let backing = vec![10, 20, 30].into_par_index_no_ref();
    let mut wrapped: IndexWrapper<u8, i32, _> = IndexWrapper::new(backing);

    assert_eq!(wrapped.get_value(&1u8), 20);
    wrapped.set_value(&2u8, 31);
    assert_eq!(wrapped.get_value_unchecked(&2u8), 31);

    let out: Vec<i32> = wrapped.into_inner().into();
    assert_eq!(out, vec![10, 20, 31]);
}

#[test]
fn index_wrapper_maps_chunk_indices() {
    let backing = vec![1, 2, 3, 4].into_par_chunk_index_no_ref(2);
    let mut wrapped: IndexWrapper<u16, i32, _> = IndexWrapper::new(backing);

    assert_eq!(wrapped.get_values(&0u16, vec![0; 2]), vec![1, 2]);
    wrapped.set_values(&1u16, &[42, 69]);
    assert_eq!(wrapped.get_values_unchecked(&1u16, vec![0; 2]), vec![42, 69]);

    let out: Vec<i32> = wrapped.into_inner().into();
    assert_eq!(out, vec![1, 2, 42, 69]);
}
