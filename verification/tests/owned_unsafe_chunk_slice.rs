//! The owned chunked wrapper through the reference tier.

use par_slice::IntoParIndex;
use par_slice::UnsafeChunkIndex;

#[test]
fn owned_unsafe_chunk_slice_no_thread_unchecked() {
    let mut slice = vec![1, 2, 3, 4].into_unsafe_par_chunk_slice(2);

    assert_eq!(slice.get_unchecked(0), &[1, 2]);
    slice.get_mut_unchecked(1).copy_from_slice(&[42, 69]);

    let out: Vec<i32> = slice.into();
    assert_eq!(out, vec![1, 2, 42, 69]);
}

#[test]
fn owned_unsafe_chunk_slice_no_thread_checked() {
    let mut slice = vec![1, 2, 3, 4].into_unsafe_par_chunk_slice(2);

    assert_eq!(slice.get(0), &[1, 2]);
    slice.get_mut(1).copy_from_slice(&[42, 69]);

    let out: Vec<i32> = slice.into();
    assert_eq!(out, vec![1, 2, 42, 69]);
}
