use tilegrid::grid::build_grid;
use tilegrid::rat::Rat;

#[test]
fn demo_grid_has_36_vertices_and_54_indices() {
    let mesh = build_grid(3, 3, 58, 30, 15);
    assert_eq!(mesh.vertices.len(), 36);
    assert_eq!(mesh.indices.len(), 54);
}

#[test]
fn demo_grid_first_two_vertices() {
    let mesh = build_grid(3, 3, 58, 30, 15);
    let v0 = &mesh.vertices[0];
    assert_eq!(v0.position.x, Rat { num: 0, den: 1 });
    assert_eq!(v0.position.y, Rat { num: 0, den: 1 });
    assert_eq!(v0.position.z, Rat { num: 1, den: 1 });
    assert_eq!(v0.tex_coords.u, Rat { num: 0, den: 1 });
    assert_eq!(v0.tex_coords.v, Rat { num: 1, den: 1 });
    let v1 = &mesh.vertices[1];
    assert_eq!(v1.position.x, Rat { num: 58, den: 1 });
    assert_eq!(v1.position.y, Rat { num: 0, den: 1 });
    assert_eq!(v1.position.z, Rat { num: 1, den: 1 });
    assert_eq!(v1.tex_coords.u, Rat { num: 1, den: 1 });
    assert_eq!(v1.tex_coords.v, Rat { num: 1, den: 1 });
}

#[test]
fn demo_grid_odd_row_offset() {
    // Row 1 is odd: column 0 starts at 0 * 58 + 29 = 29, one row step down.
    let mesh = build_grid(3, 3, 58, 30, 15);
    let first_of_row_1 = &mesh.vertices[(1 * 3 + 0) * 4];
    assert_eq!(first_of_row_1.position.x, Rat { num: 29, den: 1 });
    assert_eq!(first_of_row_1.position.y, Rat { num: 15, den: 1 });
    assert_eq!(first_of_row_1.position.z, Rat { num: 1, den: 1 });
}

#[test]
fn odd_row_offset_with_odd_tile_width_is_a_half() {
    // Tile width 57: the odd-row shift is the exact rational 57/2.
    let mesh = build_grid(1, 2, 57, 30, 15);
    let even = &mesh.vertices[0];
    let odd = &mesh.vertices[4];
    assert_eq!(even.position.x, Rat { num: 0, den: 1 });
    assert_eq!(odd.position.x, Rat { num: 57, den: 2 });
}

#[test]
fn index_pattern_per_tile() {
    let mesh = build_grid(3, 3, 58, 30, 15);
    for t in 0..9u32 {
        let base = 4 * t;
        let k = (t * 6) as usize;
        assert_eq!(mesh.indices[k], base);
        assert_eq!(mesh.indices[k + 1], base + 1);
        assert_eq!(mesh.indices[k + 2], base + 2);
        assert_eq!(mesh.indices[k + 3], base + 2);
        assert_eq!(mesh.indices[k + 4], base + 1);
        assert_eq!(mesh.indices[k + 5], base + 3);
    }
}

#[test]
fn every_index_stays_below_vertex_count() {
    let mesh = build_grid(4, 5, 58, 30, 15);
    let count = mesh.vertices.len() as u32;
    for &i in mesh.indices.iter() {
        assert!(i < count);
    }
}

#[test]
fn single_tile_grid() {
    let mesh = build_grid(1, 1, 58, 30, 15);
    assert_eq!(mesh.vertices.len(), 4);
    assert_eq!(mesh.indices.len(), 6);
    assert_eq!(mesh.vertices[3].position.x, Rat { num: 58, den: 1 });
    assert_eq!(mesh.vertices[3].position.y, Rat { num: 30, den: 1 });
    assert_eq!(mesh.vertices[3].position.z, Rat { num: 0, den: 1 });
    assert_eq!(mesh.vertices[3].tex_coords.u, Rat { num: 1, den: 1 });
    assert_eq!(mesh.vertices[3].tex_coords.v, Rat { num: 0, den: 1 });
}

#[test]
fn build_grid_is_deterministic() {
    let a = build_grid(3, 3, 58, 30, 15);
    let b = build_grid(3, 3, 58, 30, 15);
    assert_eq!(a.vertices, b.vertices);
    assert_eq!(a.indices, b.indices);
}
