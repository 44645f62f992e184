use sprite_game::world::{Entity, World};
use sprite_game::sprite_batch::SpriteBatch;

#[test]
fn new_world_is_empty() {
    let w = World::new();
    assert_eq!(w.entity_count(), 0);
    assert_eq!(w.last_entity_id(), 0);
    assert_eq!(w.position(Entity(1)), None);
}

#[test]
fn entities_are_numbered_from_one() {
    let mut w = World::new();
    let a = w.create_entity((1, 2), (3, 4), (5, 6), 7);
    let b = w.create_entity((10, 20), (30, 40), (50, 60), 70);
    assert_eq!(a, Entity(1));
    assert_eq!(b, Entity(2));
    assert_eq!(w.entity_count(), 2);
    assert_eq!(w.entity_at(0), a);
    assert_eq!(w.entity_at(1), b);
    assert_eq!(w.last_entity_id(), 2);
}

#[test]
fn created_entity_has_all_its_components() {
    let mut w = World::new();
    let a = w.create_entity((1, 2), (3, 4), (5, 6), 7);
    let b = w.create_entity((10, 20), (30, 40), (50, 60), 70);
    assert_eq!(w.position(a), Some((1, 2)));
    assert_eq!(w.velocity(a), Some((3, 4)));
    assert_eq!(w.size(a), Some((5, 6)));
    assert_eq!(w.texture_region(a), Some(7));
    assert_eq!(w.position(b), Some((10, 20)));
    assert_eq!(w.velocity(b), Some((30, 40)));
    assert_eq!(w.size(b), Some((50, 60)));
    assert_eq!(w.texture_region(b), Some(70));
    assert_eq!(w.position(Entity(3)), None);
    assert_eq!(w.texture_region(Entity(0)), None);
}

#[test]
fn set_velocity_changes_one_word() {
    let mut w = World::new();
    let a = w.create_entity((1, 2), (3, 4), (5, 6), 7);
    w.set_velocity_x(a, 9);
    assert_eq!(w.velocity(a), Some((9, 4)));
    w.set_velocity_y(a, 8);
    assert_eq!(w.velocity(a), Some((9, 8)));
    assert_eq!(w.position(a), Some((1, 2)));
}

#[test]
fn update_moves_every_entity_by_its_velocity() {
    let mut w = World::new();
    let a = w.create_entity((1, 2), (3, 4), (5, 6), 7);
    let b = w.create_entity((10, 20), (1, 1), (50, 60), 70);
    w.update(|p: (u32, u32), v: (u32, u32)| (p.0.wrapping_add(v.0), p.1.wrapping_add(v.1)));
    assert_eq!(w.position(a), Some((4, 6)));
    assert_eq!(w.position(b), Some((11, 21)));
    assert_eq!(w.velocity(a), Some((3, 4)));
    assert_eq!(w.size(b), Some((50, 60)));
}

#[test]
fn update_with_float_positions() {
    let mut w = World::new();
    let a = w.create_entity(
        (500.0f32.to_bits(), 300.0f32.to_bits()),
        ((-2.0f32).to_bits(), 0.5f32.to_bits()),
        (119.0f32.to_bits(), 134.0f32.to_bits()),
        0,
    );
    w.update(|p: (u32, u32), v: (u32, u32)| {
        (
            (f32::from_bits(p.0) + f32::from_bits(v.0)).to_bits(),
            (f32::from_bits(p.1) + f32::from_bits(v.1)).to_bits(),
        )
    });
    let p = w.position(a).unwrap();
    assert_eq!(f32::from_bits(p.0), 498.0);
    assert_eq!(f32::from_bits(p.1), 300.5);
}

#[test]
fn many_entities_all_have_components() {
    let mut w = World::new();
    for k in 0..1000u32 {
        w.create_entity((k, k), (0, 0), (1, 1), k % 2);
    }
    assert_eq!(w.entity_count(), 1000);
    for i in 0..1000usize {
        let e = w.entity_at(i);
        assert_eq!(e, Entity(i as u32 + 1));
        assert_eq!(w.position(e), Some((i as u32, i as u32)));
        assert_eq!(w.texture_region(e), Some(i as u32 % 2));
    }
}

fn corner_quad(p: (u32, u32)) -> sprite_game::Quad<u32> {
    sprite_game::Quad::sprite(p.0, p.1, p.0 + 1, p.1 + 1, 0, (1, 1, 1, 1), 0, 0, 1, 1)
}

#[test]
fn draw_all_draws_every_entity_once_grouped_by_texture() {
    let mut w = World::new();
    w.create_entity((10, 10), (0, 0), (1, 1), 0);
    w.create_entity((20, 20), (0, 0), (1, 1), 0);
    w.create_entity((30, 30), (0, 0), (1, 1), 1);
    w.create_entity((40, 40), (0, 0), (1, 1), 0);
    let mut batch: SpriteBatch<u32> = SpriteBatch::new([[0; 4]; 4]);
    let flushed = w.draw_all(&mut batch, |p: (u32, u32), _s: (u32, u32), r: u32| (r + 1, corner_quad(p)));
    assert_eq!(flushed.len(), 3);
    assert_eq!(flushed[0].0, 0);
    assert!(flushed[0].1.vertices.is_empty());
    assert_eq!(flushed[1].0, 1);
    let mut first_two = corner_quad((10, 10)).to_vertex_data();
    first_two.extend(corner_quad((20, 20)).to_vertex_data());
    assert_eq!(flushed[1].1.vertices, first_two);
    assert_eq!(flushed[1].1.indices, vec![0, 1, 3, 1, 2, 3, 4, 5, 7, 5, 6, 7]);
    assert_eq!(flushed[2].0, 2);
    assert_eq!(flushed[2].1.vertices, corner_quad((30, 30)).to_vertex_data());
    assert_eq!(batch.current_texture(), 1);
    assert_eq!(batch.quad_count(), 1);
    let rest = batch.flush();
    assert_eq!(rest.vertices, corner_quad((40, 40)).to_vertex_data());
}

#[test]
fn draw_all_on_an_empty_world_draws_nothing() {
    let w = World::new();
    let mut batch: SpriteBatch<u32> = SpriteBatch::new([[0; 4]; 4]);
    let flushed = w.draw_all(&mut batch, |p: (u32, u32), _s: (u32, u32), r: u32| (r, corner_quad(p)));
    assert!(flushed.is_empty());
    assert_eq!(batch.quad_count(), 0);
}
