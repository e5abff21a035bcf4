//! Breadth-first distances over a perfect binary tree, using a tiered buffer
//! for the distance array.

use par_slice::IntoParIndex;
use par_slice::UnsafeDataRaceAccess;
use par_slice::UnsafeIndex;

/// The successor lists of a perfect binary tree with `levels` levels,
/// numbered breadth-first from the root.
fn tree_successors(levels: u32) -> Vec<Vec<usize>> {
    let mut successors = Vec::new();
    let levels = levels - 1;

    let mut current_level = 0;
    let mut current_successor = 1;

    while current_level != levels {
        let nodes_at_level = 2_usize.pow(current_level);
        for _ in 0..nodes_at_level {
            successors.push(vec![current_successor, current_successor + 1]);
            current_successor += 2;
        }
        current_level += 1;
    }
    for _ in 0..2_usize.pow(levels) {
        successors.push(Vec::new());
    }

    successors
}

#[test]
fn test_data_race_bfs() {
    let successors = tree_successors(4);

    let mut visited = vec![false; 15];
    visited[0] = true;

    let mut dists = vec![-1; 15].into_data_race_par_slice();

    let mut current_frontier = vec![0usize];
    let mut next_frontier: Vec<usize> = Vec::new();
    let mut current_dist = 0;

    while !current_frontier.is_empty() {
        for &node in &current_frontier {
            // Each node enters the frontier exactly once, so the writes of
            // one expansion phase target pairwise distinct indices.
            dists.set_unchecked(node, current_dist);

            for &succ in &successors[node] {
                if !visited[succ] {
                    visited[succ] = true;
                    next_frontier.push(succ);
                }
            }
        }
        current_dist += 1;
        current_frontier.clear();
        std::mem::swap(&mut current_frontier, &mut next_frontier);
    }

    let dists: Vec<i32> = dists.into();
    assert_eq!(dists, vec![0, 1, 1, 2, 2, 2, 2, 3, 3, 3, 3, 3, 3, 3, 3]);
}

#[test]
fn test_unsafe_bfs() {
    let successors = tree_successors(4);

    let mut visited = vec![false; 15];
    visited[0] = true;

    let mut dists = vec![-1; 15].into_unsafe_par_slice();

    let mut current_frontier = vec![0usize];
    let mut next_frontier: Vec<usize> = Vec::new();
    let mut current_dist = 0;

    while !current_frontier.is_empty() {
        for &node in &current_frontier {
            *dists.get_mut_unchecked(node) = current_dist;

            for &succ in &successors[node] {
                if !visited[succ] {
                    visited[succ] = true;
                    next_frontier.push(succ);
                }
            }
        }
        current_dist += 1;
        current_frontier.clear();
        std::mem::swap(&mut current_frontier, &mut next_frontier);
    }

    let dists: Vec<i32> = dists.into();
    assert_eq!(dists, vec![0, 1, 1, 2, 2, 2, 2, 3, 3, 3, 3, 3, 3, 3, 3]);
}
