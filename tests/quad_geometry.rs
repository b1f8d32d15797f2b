use glarea::geometry::{
    index_buffer_bytes, quad_indices, quad_vertices, vertex_buffer_bytes, INDEX_COUNT,
    VERTEX_COUNT,
};

fn corners() -> Vec<(f32, f32)> {
    let v = quad_vertices();
    v.chunks(2).map(|p| (p[0] as f32 / 2.0, p[1] as f32 / 2.0)).collect()
}

#[test]
fn vertices_are_four_distinct_half_unit_corners() {
    let v = quad_vertices();
    assert_eq!(v.len(), 8);
    let pts = corners();
    assert_eq!(pts.len(), VERTEX_COUNT);
    for &(x, y) in &pts {
        assert!(x == 0.5 || x == -0.5);
        assert!(y == 0.5 || y == -0.5);
    }
    for i in 0..pts.len() {
        for j in i + 1..pts.len() {
            assert_ne!(pts[i], pts[j]);
        }
    }
    assert_eq!(pts, vec![(0.5, 0.5), (-0.5, 0.5), (-0.5, -0.5), (0.5, -0.5)]);
}

#[test]
fn indices_form_two_counter_clockwise_triangles() {
    let ix = quad_indices();
    assert_eq!(ix, [0, 1, 2, 2, 3, 0]);
    assert_eq!(ix.len(), INDEX_COUNT);
    assert!(ix.iter().all(|&i| i < 4));
    for c in 0u16..4 {
        assert!(ix.contains(&c));
    }
    let pts = corners();
    for tri in ix.chunks(3) {
        let (a, b, c) = (pts[tri[0] as usize], pts[tri[1] as usize], pts[tri[2] as usize]);
        let area2 = (b.0 - a.0) * (c.1 - a.1) - (b.1 - a.1) * (c.0 - a.0);
        assert!(area2 > 0.0);
    }
}

#[test]
fn buffer_sizes_match_payload() {
    assert_eq!(vertex_buffer_bytes(), 8 * 4);
    assert_eq!(index_buffer_bytes(), 6 * 2);
}
