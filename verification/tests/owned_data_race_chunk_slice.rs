//! The owned chunked wrapper through the terse `get`/`set` tier.

use par_slice::IntoParIndex;
use par_slice::UnsafeDataRaceChunkAccess;

#[test]
fn owned_data_race_chunk_slice_read_write() {
    let mut slice = vec![1, 2, 3, 4, 5, 6].into_data_race_par_chunk_slice(3);

    assert_eq!(slice.get(0), vec![1, 2, 3]);
    assert_eq!(slice.get_unchecked(1), vec![4, 5, 6]);
    slice.set(0, &[7, 8, 9]);
    slice.set_unchecked(1, &[10, 11, 12]);

    let out: Vec<i32> = slice.into();
    assert_eq!(out, vec![7, 8, 9, 10, 11, 12]);
}

#[test]
fn single_chunk_covers_whole_buffer() {
    let mut slice = vec![1, 2, 3, 4].into_data_race_par_chunk_slice(4);

    assert_eq!(slice.get(0), vec![1, 2, 3, 4]);
    slice.set(0, &[5, 6, 7, 8]);

    let out: Vec<i32> = slice.into();
    assert_eq!(out, vec![5, 6, 7, 8]);
}

#[test]
fn unit_chunks_behave_like_single_elements() {
    let mut slice = vec![1, 2, 3].into_data_race_par_chunk_slice(1);

    assert_eq!(slice.get(2), vec![3]);
    slice.set(1, &[9]);

    let out: Vec<i32> = slice.into();
    assert_eq!(out, vec![1, 9, 3]);
}
