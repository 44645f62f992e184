//! The entity world: entities are numbered from 1 in the order they are
//! created, and every entity has a position, a velocity, a size and a
//! texture region.

use vstd::prelude::*;
use crate::component_map::{
    Pair, PairMap, HandleMap, pair_map_contents, handle_map_contents, pair_map_new,
    handle_map_new, pair_map_insert, handle_map_insert, pair_map_get, handle_map_get,
};

use crate::quad::Quad;
use crate::sprite_batch::{
    Batch, SpriteBatch, MAX_QUADS, draw_sequence, batches_hold, expand_groups, with_texture,
    lemma_draw_sequence,
};

verus! {

/// A handle on one entity of a [`World`]: its id.
#[derive(PartialEq, Eq, Structural, Clone, Copy, Debug, Hash)]
pub struct Entity(pub u32);

/// The entities of the game and their components.
///
/// Positions, velocities and sizes are pairs of 32-bit words; a texture
/// region is a handle that the caller resolves.
pub struct World {
    last_id: u32,
    entities: Vec<Entity>,
    positions: PairMap,
    velocities: PairMap,
    sizes: PairMap,
    texture_regioned: HandleMap,
}

/// The ids that `n` calls of `create_entity` hand out: `1 ..= n`.
pub open spec fn live_ids(n: nat) -> Set<u32> {
    Set::new(|id: u32| 1 <= id <= n)
}

impl World {
    /// The id of the last entity created (0 when there is none).
    pub closed spec fn last_id(self) -> nat {
        self.last_id as nat
    }

    /// The entities, in the order they were created.
    pub closed spec fn entities(self) -> Seq<Entity> {
        self.entities@
    }

    /// Position of each entity, by id.
    pub closed spec fn positions(self) -> Map<u32, Pair> {
        pair_map_contents(self.positions)
    }

    /// Velocity of each entity, by id.
    pub closed spec fn velocities(self) -> Map<u32, Pair> {
        pair_map_contents(self.velocities)
    }

    /// Size of each entity, by id.
    pub closed spec fn sizes(self) -> Map<u32, Pair> {
        pair_map_contents(self.sizes)
    }

    /// Texture region of each entity, by id.
    pub closed spec fn texture_regions(self) -> Map<u32, u32> {
        handle_map_contents(self.texture_regioned)
    }

    /// The world is well formed when entity `i` (counting from 0) has id
    /// `i + 1`, the last id is the number of entities, and each component
    /// map has an entry for exactly the live entities.
    pub open spec fn wf(self) -> bool {
        &&& self.entities().len() == self.last_id()
        &&& forall|i: int| 0 <= i < self.entities().len() ==> (#[trigger] self.entities()[i]).0 == i + 1
        &&& self.positions().dom() == live_ids(self.last_id())
        &&& self.velocities().dom() == live_ids(self.last_id())
        &&& self.sizes().dom() == live_ids(self.last_id())
        &&& self.texture_regions().dom() == live_ids(self.last_id())
    }

    /// Whether `e` is an entity of this world.
    pub open spec fn is_live(self, e: Entity) -> bool {
        self.entities().contains(e)
    }

    /// A world with no entities.
    pub fn new() -> (world: World)
        ensures
            world.wf(),
            world.last_id() == 0,
            world.entities() == Seq::<Entity>::empty(),
    {
        let world = World {
            last_id: 0,
            entities: Vec::new(),
            positions: pair_map_new(),
            velocities: pair_map_new(),
            sizes: pair_map_new(),
            texture_regioned: handle_map_new(),
        };
        assert(world.positions().dom() =~= live_ids(0));
        assert(world.velocities().dom() =~= live_ids(0));
        assert(world.sizes().dom() =~= live_ids(0));
        assert(world.texture_regions().dom() =~= live_ids(0));
        world
    }

    /// Creates an entity with the given components and returns it. Its id is
    /// one more than the last id handed out.
    pub fn create_entity(&mut self, p: Pair, v: Pair, s: Pair, t: u32) -> (e: Entity)
        requires
            old(self).wf(),
            old(self).last_id() < u32::MAX,
        ensures
            final(self).wf(),
            e.0 == old(self).last_id() + 1,
            !old(self).is_live(e),
            final(self).is_live(e),
            final(self).last_id() == old(self).last_id() + 1,
            final(self).entities() == old(self).entities().push(e),
            final(self).positions() == old(self).positions().insert(e.0, p),
            final(self).velocities() == old(self).velocities().insert(e.0, v),
            final(self).sizes() == old(self).sizes().insert(e.0, s),
            final(self).texture_regions() == old(self).texture_regions().insert(e.0, t),
    {
        self.last_id = self.last_id + 1;
        let id = self.last_id;
        let e = Entity(id);
        pair_map_insert(&mut self.positions, id, p);
        pair_map_insert(&mut self.velocities, id, v);
        pair_map_insert(&mut self.sizes, id, s);
        handle_map_insert(&mut self.texture_regioned, id, t);
        self.entities.push(e);
        assert(self.positions().dom() =~= live_ids(self.last_id()));
        assert(self.velocities().dom() =~= live_ids(self.last_id()));
        assert(self.sizes().dom() =~= live_ids(self.last_id()));
        assert(self.texture_regions().dom() =~= live_ids(self.last_id()));
        proof {
            old(self).lemma_live_entities();
            assert(self.entities()[self.entities().len() - 1] == e);
        }
        e
    }

    /// In a well-formed world the live entities are exactly those with ids
    /// `1 ..= last_id`, no two entities share an id, and every live entity
    /// has a position, a velocity, a size and a texture region.
    pub proof fn lemma_live_entities(self)
        requires
            self.wf(),
        ensures
            forall|e: Entity| #[trigger] self.is_live(e) <==> 1 <= e.0 <= self.last_id(),
            forall|i: int, j: int|
                0 <= i < self.entities().len() && 0 <= j < self.entities().len() && i != j
                    ==> #[trigger] self.entities()[i] != #[trigger] self.entities()[j],
            forall|e: Entity| #[trigger] self.is_live(e) ==> {
                &&& self.positions().dom().contains(e.0)
                &&& self.velocities().dom().contains(e.0)
                &&& self.sizes().dom().contains(e.0)
                &&& self.texture_regions().dom().contains(e.0)
            },
    {
        assert forall|e: Entity| #[trigger] self.is_live(e) <==> 1 <= e.0 <= self.last_id() by {
            if 1 <= e.0 <= self.last_id() {
                let i = e.0 - 1;
                assert(self.entities()[i].0 == e.0);
                assert(self.entities()[i] == e);
            }
        }
    }

    /// Number of entities.
    pub fn entity_count(&self) -> (n: usize)
        ensures
            n == self.entities().len(),
    {
        self.entities.len()
    }

    /// The entity created in position `i` (counting from 0).
    pub fn entity_at(&self, i: usize) -> (e: Entity)
        requires
            i < self.entities().len(),
        ensures
            e == self.entities()[i as int],
    {
        self.entities[i]
    }

    /// The id of the last entity created (0 when there is none).
    pub fn last_entity_id(&self) -> (id: u32)
        ensures
            id == self.last_id(),
    {
        self.last_id
    }

    /// The position of `e`, or `None` if `e` is not an entity of this world.
    pub fn position(&self, e: Entity) -> (p: Option<Pair>)
        requires
            self.wf(),
        ensures
            p == (if self.is_live(e) { Some(self.positions()[e.0]) } else { None }),
    {
        proof { self.lemma_live_entities(); }
        pair_map_get(&self.positions, e.0)
    }

    /// The velocity of `e`, or `None` if `e` is not an entity of this world.
    pub fn velocity(&self, e: Entity) -> (v: Option<Pair>)
        requires
            self.wf(),
        ensures
            v == (if self.is_live(e) { Some(self.velocities()[e.0]) } else { None }),
    {
        proof { self.lemma_live_entities(); }
        pair_map_get(&self.velocities, e.0)
    }

    /// The size of `e`, or `None` if `e` is not an entity of this world.
    pub fn size(&self, e: Entity) -> (s: Option<Pair>)
        requires
            self.wf(),
        ensures
            s == (if self.is_live(e) { Some(self.sizes()[e.0]) } else { None }),
    {
        proof { self.lemma_live_entities(); }
        pair_map_get(&self.sizes, e.0)
    }

    /// The texture region of `e`, or `None` if `e` is not an entity of this
    /// world.
    pub fn texture_region(&self, e: Entity) -> (t: Option<u32>)
        requires
            self.wf(),
        ensures
            t == (if self.is_live(e) { Some(self.texture_regions()[e.0]) } else { None }),
    {
        proof { self.lemma_live_entities(); }
        handle_map_get(&self.texture_regioned, e.0)
    }

    /// Sets the first word of the velocity of the live entity `e`.
    pub fn set_velocity_x(&mut self, e: Entity, x: u32)
        requires
            old(self).wf(),
            old(self).is_live(e),
        ensures
            final(self).wf(),
            final(self).velocities() == old(self).velocities().insert(e.0, (x, old(self).velocities()[e.0].1)),
            final(self).last_id() == old(self).last_id(),
            final(self).entities() == old(self).entities(),
            final(self).positions() == old(self).positions(),
            final(self).sizes() == old(self).sizes(),
            final(self).texture_regions() == old(self).texture_regions(),
    {
        proof { self.lemma_live_entities(); }
        let v = pair_map_get(&self.velocities, e.0);
        let y = match v {
            Some(old_v) => old_v.1,
            None => 0,
        };
        pair_map_insert(&mut self.velocities, e.0, (x, y));
        assert(self.velocities().dom() =~= live_ids(self.last_id()));
    }

    /// Sets the second word of the velocity of the live entity `e`.
    pub fn set_velocity_y(&mut self, e: Entity, y: u32)
        requires
            old(self).wf(),
            old(self).is_live(e),
        ensures
            final(self).wf(),
            final(self).velocities() == old(self).velocities().insert(e.0, (old(self).velocities()[e.0].0, y)),
            final(self).last_id() == old(self).last_id(),
            final(self).entities() == old(self).entities(),
            final(self).positions() == old(self).positions(),
            final(self).sizes() == old(self).sizes(),
            final(self).texture_regions() == old(self).texture_regions(),
    {
        proof { self.lemma_live_entities(); }
        let v = pair_map_get(&self.velocities, e.0);
        let x = match v {
            Some(old_v) => old_v.0,
            None => 0,
        };
        pair_map_insert(&mut self.velocities, e.0, (x, y));
        assert(self.velocities().dom() =~= live_ids(self.last_id()));
    }

    /// Moves every entity one step: its position becomes what `step` gives
    /// for its old position and its velocity. Nothing else changes.
    pub fn update<S: Fn(Pair, Pair) -> Pair>(&mut self, step: S)
        requires
            old(self).wf(),
            forall|p: Pair, v: Pair| #[trigger] call_requires(step, (p, v)),
        ensures
            final(self).wf(),
            final(self).last_id() == old(self).last_id(),
            final(self).entities() == old(self).entities(),
            final(self).velocities() == old(self).velocities(),
            final(self).sizes() == old(self).sizes(),
            final(self).texture_regions() == old(self).texture_regions(),
            final(self).positions().dom() == old(self).positions().dom(),
            forall|id: u32| #[trigger] final(self).positions().dom().contains(id) ==> call_ensures(
                step,
                (old(self).positions()[id], old(self).velocities()[id]),
                final(self).positions()[id],
            ),
    {
        let n = self.entities.len();
        let ghost before = *self;
        for i in 0..n
            invariant
                n == before.entities().len(),
                before.wf(),
                self.wf(),
                forall|p: Pair, v: Pair| #[trigger] call_requires(step, (p, v)),
                self.last_id() == before.last_id(),
                self.entities() == before.entities(),
                self.velocities() == before.velocities(),
                self.sizes() == before.sizes(),
                self.texture_regions() == before.texture_regions(),
                forall|id: u32| 1 <= id <= i ==> call_ensures(
                    step,
                    (#[trigger] before.positions()[id], before.velocities()[id]),
                    self.positions()[id],
                ),
                forall|id: u32| i < id <= n ==> #[trigger] self.positions()[id] == before.positions()[id],
        {
            let e = self.entities[i];
            assert(e.0 == i + 1);
            let p = pair_map_get(&self.positions, e.0);
            let v = pair_map_get(&self.velocities, e.0);
            match (p, v) {
                (Some(p), Some(v)) => {
                    let moved = step(p, v);
                    pair_map_insert(&mut self.positions, e.0, moved);
                    assert(self.positions().dom() =~= live_ids(self.last_id()));
                },
                _ => {},
            }
        }
    }

    /// Draws the sprite of every entity into `batch`, in the order the
    /// entities were created. `sprite_of` gives, for an entity's position,
    /// size and texture region, the texture and the quad to draw. Returns
    /// the batches that the draws hand out, each with the texture it was
    /// collected with; the last quads stay in `batch`.
    ///
    /// Every entity's quad is drawn exactly once, in creation order, with
    /// its texture, and no batch mixes textures: the batches handed out,
    /// then what stays pending, are the quads that were pending followed by
    /// the entities' quads. The batch may not grow past [`MAX_QUADS`]
    /// quads, a bound far beyond the memory a world of that many entities
    /// takes.
    pub fn draw_all<F: Copy, Q: Fn(Pair, Pair, u32) -> (u32, Quad<F>)>(
        &self,
        batch: &mut SpriteBatch<F>,
        sprite_of: Q,
    ) -> (flushed: Vec<(u32, Batch<F>)>)
        requires
            self.wf(),
            old(batch).wf(),
            old(batch).count() + self.entities().len() <= MAX_QUADS,
            forall|p: Pair, s: Pair, t: u32| #[trigger] call_requires(sprite_of, (p, s, t)),
        ensures
            final(batch).wf(),
            final(batch).projection() == old(batch).projection(),
            exists|drawn: Seq<(u32, Quad<F>)>| {
                &&& drawn.len() == self.entities().len()
                &&& forall|i: int| 0 <= i < drawn.len() ==> call_ensures(
                    sprite_of,
                    (
                        self.positions()[self.entities()[i].0],
                        self.sizes()[self.entities()[i].0],
                        self.texture_regions()[self.entities()[i].0],
                    ),
                    #[trigger] drawn[i],
                )
                &&& draw_sequence(old(batch).texture(), old(batch).pending_quads(), drawn).0.len() == flushed@.len()
                &&& batches_hold(flushed@, draw_sequence(old(batch).texture(), old(batch).pending_quads(), drawn).0)
                &&& final(batch).texture() == draw_sequence(old(batch).texture(), old(batch).pending_quads(), drawn).1
                &&& final(batch).pending_quads() == draw_sequence(old(batch).texture(), old(batch).pending_quads(), drawn).2
                &&& expand_groups(draw_sequence(old(batch).texture(), old(batch).pending_quads(), drawn).0)
                    + with_texture(final(batch).texture(), final(batch).pending_quads())
                    == with_texture(old(batch).texture(), old(batch).pending_quads()) + drawn
            },
    {
        proof { self.lemma_live_entities(); }
        let n = self.entities.len();
        let ghost texture0 = batch.texture();
        let ghost pending0 = batch.pending_quads();
        let ghost count0 = batch.count();
        let ghost projection0 = batch.projection();
        let ghost mut drawn: Seq<(u32, Quad<F>)> = Seq::empty();
        let mut flushed: Vec<(u32, Batch<F>)> = Vec::new();
        for i in 0..n
            invariant
                n == self.entities().len(),
                self.wf(),
                forall|e: Entity| #[trigger] self.is_live(e) ==> {
                    &&& self.positions().dom().contains(e.0)
                    &&& self.sizes().dom().contains(e.0)
                    &&& self.texture_regions().dom().contains(e.0)
                },
                forall|p: Pair, s: Pair, t: u32| #[trigger] call_requires(sprite_of, (p, s, t)),
                batch.wf(),
                batch.projection() == projection0,
                batch.count() <= count0 + i,
                count0 + n <= MAX_QUADS,
                drawn.len() == i,
                forall|j: int| 0 <= j < i ==> call_ensures(
                    sprite_of,
                    (
                        self.positions()[self.entities()[j].0],
                        self.sizes()[self.entities()[j].0],
                        self.texture_regions()[self.entities()[j].0],
                    ),
                    #[trigger] drawn[j],
                ),
                batches_hold(flushed@, draw_sequence(texture0, pending0, drawn).0),
                batch.texture() == draw_sequence(texture0, pending0, drawn).1,
                batch.pending_quads() == draw_sequence(texture0, pending0, drawn).2,
        {
            let e = self.entities[i];
            assert(self.is_live(e)) by {
                assert(self.entities()[i as int] == e);
            }
            let p = pair_map_get(&self.positions, e.0);
            let s = pair_map_get(&self.sizes, e.0);
            let r = handle_map_get(&self.texture_regioned, e.0);
            match (p, s, r) {
                (Some(p), Some(s), Some(r)) => {
                    let (texture, quad) = sprite_of(p, s, r);
                    let previous = batch.current_texture();
                    let ghost before = draw_sequence(texture0, pending0, drawn);
                    let out = batch.draw(texture, &quad);
                    proof {
                        let next = drawn.push((texture, quad));
                        assert(next.drop_last() =~= drawn);
                        drawn = next;
                    }
                    match out {
                        Some(b) => {
                            flushed.push((previous, b));
                        },
                        None => {},
                    }
                    proof {
                        let after = draw_sequence(texture0, pending0, drawn);
                        assert(batches_hold(flushed@, after.0)) by {
                            if texture != previous {
                                assert(after.0 == before.0.push((before.1, before.2)));
                            }
                        }
                    }
                },
                _ => {},
            }
        }
        proof {
            lemma_draw_sequence(texture0, pending0, drawn);
            assert(drawn.len() == self.entities().len());
        }
        flushed
    }
}

} // verus!
