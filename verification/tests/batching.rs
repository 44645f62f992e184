use sprite_game::quad::Quad;
use sprite_game::vertex::Vertex;
use sprite_game::sprite_batch::SpriteBatch;

fn vertex(base: i32) -> Vertex<i32> {
    Vertex {
        pos: (base, base + 1, base + 2),
        color: (base + 3, base + 4, base + 5, base + 6),
        uv: (base + 7, base + 8),
    }
}

fn quad(base: i32) -> Quad<i32> {
    Quad::new(vertex(base), vertex(base + 100), vertex(base + 200), vertex(base + 300))
}

fn identity() -> [[f32; 4]; 4] {
    [
        [1.0, 0.0, 0.0, 0.0],
        [0.0, 1.0, 0.0, 0.0],
        [0.0, 0.0, 1.0, 0.0],
        [0.0, 0.0, 0.0, 1.0],
    ]
}

#[test]
fn quad_new_keeps_vertices_in_order() {
    let q = quad(0);
    assert_eq!(q.0.pos, (0, 1, 2));
    assert_eq!(q.1.pos, (100, 101, 102));
    assert_eq!(q.2.pos, (200, 201, 202));
    assert_eq!(q.3.pos, (300, 301, 302));
}

#[test]
fn vertex_data_is_nine_components_per_vertex() {
    let data = quad(0).to_vertex_data();
    assert_eq!(data.len(), 36);
    let mut expected = Vec::new();
    for v in 0..4 {
        for k in 0..9 {
            expected.push(v * 100 + k);
        }
    }
    assert_eq!(data, expected);
}

#[test]
fn vertex_data_of_floats() {
    let v = Vertex { pos: (1.5f32, 2.5, 0.0), color: (1.0, 1.0, 1.0, 1.0), uv: (0.25, 0.75) };
    let q = Quad::new(v.clone(), v.clone(), v.clone(), v);
    let data = q.to_vertex_data();
    assert_eq!(&data[0..9], &[1.5, 2.5, 0.0, 1.0, 1.0, 1.0, 1.0, 0.25, 0.75]);
    assert_eq!(&data[27..36], &[1.5, 2.5, 0.0, 1.0, 1.0, 1.0, 1.0, 0.25, 0.75]);
}

#[test]
fn sprite_quad_corners_and_uvs() {
    let q = Quad::sprite(10, 20, 30, 40, 0, (1, 1, 1, 1), 5, 6, 7, 8);
    assert_eq!((q.0.pos, q.0.uv), ((30, 40, 0), (7, 8)));
    assert_eq!((q.1.pos, q.1.uv), ((30, 20, 0), (7, 6)));
    assert_eq!((q.2.pos, q.2.uv), ((10, 20, 0), (5, 6)));
    assert_eq!((q.3.pos, q.3.uv), ((10, 40, 0), (5, 8)));
    assert_eq!(q.2.color, (1, 1, 1, 1));
}

#[test]
fn new_batch_is_empty_and_keeps_projection() {
    let m = [[1, 2, 3, 4], [5, 6, 7, 8], [9, 10, 11, 12], [13, 14, 15, 16]];
    let batch: SpriteBatch<i32> = SpriteBatch::new(m);
    assert_eq!(batch.quad_count(), 0);
    assert_eq!(batch.current_texture(), 0);
    assert_eq!(*batch.projection_data(), (1..=16).collect::<Vec<i32>>());
}

#[test]
fn projection_of_floats_is_flattened_row_by_row() {
    let batch: SpriteBatch<f32> = SpriteBatch::new(identity());
    let p = batch.projection_data();
    assert_eq!(p.len(), 16);
    assert_eq!(p[0], 1.0);
    assert_eq!(p[5], 1.0);
    assert_eq!(p[1], 0.0);
    assert_eq!(p[15], 1.0);
}

#[test]
fn first_draw_switches_from_no_texture() {
    let mut batch: SpriteBatch<i32> = SpriteBatch::new([[0; 4]; 4]);
    let flushed = batch.draw(7, &quad(0)).expect("switching texture flushes");
    assert!(flushed.vertices.is_empty());
    assert!(flushed.indices.is_empty());
    assert_eq!(batch.current_texture(), 7);
    assert_eq!(batch.quad_count(), 1);
}

#[test]
fn draw_with_texture_zero_does_not_flush_first() {
    let mut batch: SpriteBatch<i32> = SpriteBatch::new([[0; 4]; 4]);
    assert!(batch.draw(0, &quad(0)).is_none());
    assert_eq!(batch.quad_count(), 1);
}

#[test]
fn same_texture_accumulates_quads_and_indices() {
    let mut batch: SpriteBatch<i32> = SpriteBatch::new([[0; 4]; 4]);
    batch.draw(3, &quad(0));
    assert!(batch.draw(3, &quad(1000)).is_none());
    assert!(batch.draw(3, &quad(2000)).is_none());
    assert_eq!(batch.quad_count(), 3);
    let out = batch.flush();
    assert_eq!(out.vertices.len(), 108);
    let mut expected = quad(0).to_vertex_data();
    expected.extend(quad(1000).to_vertex_data());
    expected.extend(quad(2000).to_vertex_data());
    assert_eq!(out.vertices, expected);
    assert_eq!(
        out.indices,
        vec![0, 1, 3, 1, 2, 3, 4, 5, 7, 5, 6, 7, 8, 9, 11, 9, 10, 11]
    );
}

#[test]
fn every_index_names_a_collected_corner() {
    let mut batch: SpriteBatch<i32> = SpriteBatch::new([[0; 4]; 4]);
    for k in 0..10 {
        batch.draw(1, &quad(k));
    }
    let out = batch.flush();
    assert_eq!(out.indices.len(), 60);
    for &i in &out.indices {
        assert!(i < 40);
        assert!((i as usize + 1) * 9 <= out.vertices.len());
    }
}

#[test]
fn texture_change_hands_out_previous_quads() {
    let mut batch: SpriteBatch<i32> = SpriteBatch::new([[0; 4]; 4]);
    batch.draw(1, &quad(0));
    batch.draw(1, &quad(1000));
    let flushed = batch.draw(2, &quad(2000)).expect("texture changed");
    let mut expected = quad(0).to_vertex_data();
    expected.extend(quad(1000).to_vertex_data());
    assert_eq!(flushed.vertices, expected);
    assert_eq!(flushed.indices, vec![0, 1, 3, 1, 2, 3, 4, 5, 7, 5, 6, 7]);
    assert_eq!(batch.current_texture(), 2);
    assert_eq!(batch.quad_count(), 1);
    let rest = batch.flush();
    assert_eq!(rest.vertices, quad(2000).to_vertex_data());
    assert_eq!(rest.indices, vec![0, 1, 3, 1, 2, 3]);
}

#[test]
fn flush_empties_but_keeps_texture() {
    let mut batch: SpriteBatch<i32> = SpriteBatch::new([[0; 4]; 4]);
    batch.draw(4, &quad(0));
    let first = batch.flush();
    assert_eq!(first.indices.len(), 6);
    assert_eq!(batch.quad_count(), 0);
    assert_eq!(batch.current_texture(), 4);
    let second = batch.flush();
    assert!(second.vertices.is_empty());
    assert!(second.indices.is_empty());
    assert!(batch.draw(4, &quad(0)).is_none());
}

#[test]
fn draws_with_one_texture_are_rendered_once_in_order() {
    let mut batch: SpriteBatch<i32> = SpriteBatch::new([[0; 4]; 4]);
    batch.draw(9, &quad(0));
    batch.flush();
    let n = 5;
    for k in 0..n {
        assert!(batch.draw(9, &quad(1000 * k)).is_none());
    }
    let out = batch.flush();
    assert_eq!(out.vertices.len(), 36 * n as usize);
    for k in 0..n as usize {
        assert_eq!(&out.vertices[36 * k..36 * k + 36], &quad(1000 * k as i32).to_vertex_data()[..]);
    }
    let mut expected = Vec::new();
    for k in 0..n as u32 {
        expected.extend([4 * k, 4 * k + 1, 4 * k + 3, 4 * k + 1, 4 * k + 2, 4 * k + 3]);
    }
    assert_eq!(out.indices, expected);
}
