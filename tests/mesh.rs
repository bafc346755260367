use urdf_viz::triangle_faces;

#[test]
fn non_triangle_faces_are_dropped() {
    let faces = vec![vec![0u32, 1, 2], vec![0, 1, 2, 3], vec![2, 3, 4]];
    assert_eq!(triangle_faces(&faces), vec![(0, 1, 2), (2, 3, 4)]);
}

#[test]
fn no_faces_gives_no_triangles() {
    let faces: Vec<Vec<u32>> = vec![];
    assert!(triangle_faces(&faces).is_empty());
    assert!(triangle_faces(&vec![vec![1u32, 2], vec![]]).is_empty());
}
