use cgmath::Vector3;
use polypaper::grid::{grid_cells, VERTEX_COUNT};
use polypaper::triangulation::{
    triangle_corners, triangulate, QUAD_COLUMNS, QUAD_COUNT, QUAD_ROWS, TRIANGLE_COUNT,
};

fn numbered() -> Vec<usize> {
    (0..VERTEX_COUNT).collect()
}

fn regular_lattice(width: f32, height: f32) -> Vec<Vector3<f32>> {
    grid_cells()
        .iter()
        .map(|cell| {
            Vector3::new(
                (width / 16.0) * cell.col as f32 - width / 16.0,
                (height / 8.0) * cell.row as f32 - height / 8.0,
                0.0,
            )
        })
        .collect()
}

#[test]
fn counts_fit_together() {
    assert_eq!(QUAD_COLUMNS, 18);
    assert_eq!(QUAD_ROWS, 10);
    assert_eq!(QUAD_COUNT, 180);
    assert_eq!(TRIANGLE_COUNT, 360);
}

#[test]
fn mesh_has_360_triangles_over_209_vertices() {
    for (width, height) in [(1920.0_f32, 1080.0_f32), (1.0, 1.0), (640.0, 480.0), (0.0, 0.0)] {
        let vertices = regular_lattice(width, height);
        assert_eq!(vertices.len(), 209);
        assert_eq!(triangulate(&vertices).len(), 360);
    }
}

#[test]
fn first_quad_is_cut_from_top_right_to_bottom_left() {
    let triangles = triangulate(&numbered());
    assert_eq!(triangles[0], (0, 1, 19));
    assert_eq!(triangles[1], (1, 19, 20));
}

#[test]
fn quads_are_visited_row_by_row() {
    let triangles = triangulate(&numbered());
    assert_eq!(triangles[2], (1, 2, 20));
    assert_eq!(triangles[3], (2, 20, 21));
    assert_eq!(triangles[34], (17, 18, 36));
    assert_eq!(triangles[35], (18, 36, 37));
    assert_eq!(triangles[36], (19, 20, 38));
    assert_eq!(triangles[37], (20, 38, 39));
    assert_eq!(triangles[358], (188, 189, 207));
    assert_eq!(triangles[359], (189, 207, 208));
}

#[test]
fn triangle_corners_names_the_same_vertices() {
    let triangles = triangulate(&numbered());
    for t in 0..TRIANGLE_COUNT {
        assert_eq!(triangles[t], triangle_corners(t));
    }
    assert_eq!(triangle_corners(0), (0, 1, 19));
    assert_eq!(triangle_corners(37), (20, 38, 39));
    assert_eq!(triangle_corners(359), (189, 207, 208));
}

#[test]
fn corners_are_distinct_and_on_the_lattice() {
    for t in 0..TRIANGLE_COUNT {
        let (a, b, c) = triangle_corners(t);
        assert!(a < b && b < c && c < VERTEX_COUNT);
    }
}

#[test]
fn halves_of_a_quad_share_the_diagonal() {
    for quad in 0..QUAD_COUNT {
        let upper = triangle_corners(2 * quad);
        let lower = triangle_corners(2 * quad + 1);
        assert_eq!(upper.1, lower.0);
        assert_eq!(upper.2, lower.1);
        assert_eq!(lower.2, upper.0 + 20);
    }
}

#[test]
fn every_vertex_is_used() {
    let mut used = vec![0usize; VERTEX_COUNT];
    for (a, b, c) in triangulate(&numbered()) {
        used[a] += 1;
        used[b] += 1;
        used[c] += 1;
    }
    assert!(used.iter().all(|&count| count >= 1));
    // A corner of the lattice belongs to one or two triangles, an inner vertex to six.
    assert_eq!(used[0], 1);
    assert_eq!(used[18], 2);
    assert_eq!(used[190], 2);
    assert_eq!(used[208], 1);
    assert_eq!(used[20], 6);
    assert_eq!(used.iter().sum::<usize>(), 3 * 360);
}

#[test]
fn vertices_past_the_lattice_are_ignored() {
    let mut longer = numbered();
    longer.extend([1000, 1001, 1002]);
    assert_eq!(triangulate(&longer), triangulate(&numbered()));
}

#[test]
fn regular_lattice_gives_regular_triangles() {
    let triangles = triangulate(&regular_lattice(1920.0, 1080.0));
    let (a, b, c) = triangles[0];
    assert_eq!(a, Vector3::new(-120.0, -135.0, 0.0));
    assert_eq!(b, Vector3::new(0.0, -135.0, 0.0));
    assert_eq!(c, Vector3::new(-120.0, 0.0, 0.0));
    let (d, e, f) = triangles[359];
    assert_eq!(d, Vector3::new(2040.0, 1080.0, 0.0));
    assert_eq!(e, Vector3::new(1920.0, 1215.0, 0.0));
    assert_eq!(f, Vector3::new(2040.0, 1215.0, 0.0));
}

#[test]
fn triangles_hold_their_vertices_by_value() {
    let mut vertices = regular_lattice(1920.0, 1080.0);
    let triangles = triangulate(&vertices);
    vertices[0] = Vector3::new(7.0, 8.0, 9.0);
    assert_eq!(triangles[0].0, Vector3::new(-120.0, -135.0, 0.0));
}

#[test]
fn two_vertex_sets_give_meshes_of_one_size() {
    let first = triangulate(&regular_lattice(1920.0, 1080.0));
    let second = triangulate(&regular_lattice(800.0, 600.0));
    assert_eq!(first.len(), 360);
    assert_eq!(second.len(), 360);
    assert_ne!(first, second);
}

#[test]
fn new_mesh_keeps_nothing_of_the_old() {
    let old: Vec<usize> = (0..VERTEX_COUNT).collect();
    let new: Vec<usize> = (0..VERTEX_COUNT).map(|index| index + 1000).collect();
    let _before = triangulate(&old);
    let after = triangulate(&new);
    for (a, b, c) in after {
        assert!(a >= 1000 && b >= 1000 && c >= 1000);
    }
}

#[test]
fn moving_one_vertex_changes_only_its_triangles() {
    let base = numbered();
    let mut moved = numbered();
    moved[20] = 5000;
    let before = triangulate(&base);
    let after = triangulate(&moved);
    let mut changed = 0;
    for t in 0..TRIANGLE_COUNT {
        let (a, b, c) = triangle_corners(t);
        if a == 20 || b == 20 || c == 20 {
            assert_ne!(before[t], after[t]);
            changed += 1;
        } else {
            assert_eq!(before[t], after[t]);
        }
    }
    assert_eq!(changed, 6);
}
