use kilonova::scheme::{extend_with_ghosts, matches_mesh, total_zones};

fn chain() -> Vec<Vec<u32>> {
    vec![vec![1, 2, 3, 4], vec![5, 6, 7], vec![8, 9, 10, 11, 12]]
}

#[test]
fn total_zones_sums_cells_of_all_blocks() {
    assert_eq!(total_zones(&chain()), Some(12));
    let none: Vec<Vec<u32>> = Vec::new();
    assert_eq!(total_zones(&none), Some(0));
}

#[test]
fn matches_mesh_checks_every_block() {
    assert!(matches_mesh(&chain(), &vec![4, 3, 5]));
    assert!(!matches_mesh(&chain(), &vec![4, 3, 4]));
    assert!(!matches_mesh(&chain(), &vec![4, 3]));
    assert!(!matches_mesh(&chain(), &vec![4, 3, 5, 1]));
}

#[test]
fn interior_block_sees_both_neighbours() {
    let r = extend_with_ghosts(&chain(), 1, 2, &vec![0, 0], &vec![99, 99]);
    assert_eq!(r, vec![3, 4, 5, 6, 7, 8, 9]);
}

#[test]
fn edge_blocks_see_boundary_cells() {
    let first = extend_with_ghosts(&chain(), 0, 2, &vec![-1i32 as u32, 0], &vec![99, 99]);
    assert_eq!(first, vec![-1i32 as u32, 0, 1, 2, 3, 4, 5, 6]);
    let last = extend_with_ghosts(&chain(), 2, 2, &vec![0, 0], &vec![98, 99]);
    assert_eq!(last, vec![6, 7, 8, 9, 10, 11, 12, 98, 99]);
}

#[test]
fn single_block_uses_only_boundary_cells() {
    let one = vec![vec![4u32, 5, 6]];
    let r = extend_with_ghosts(&one, 0, 1, &vec![3], &vec![7]);
    assert_eq!(r, vec![3, 4, 5, 6, 7]);
    let r0 = extend_with_ghosts(&one, 0, 0, &Vec::new(), &Vec::new());
    assert_eq!(r0, vec![4, 5, 6]);
}
