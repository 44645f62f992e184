use vstd::prelude::*;
use crate::quad::{Quad, QUAD_COMPONENTS};

verus! {

/// Number of indices one quad adds to the index buffer (two triangles).
pub const QUAD_INDICES: usize = 6;

/// Bound on the quads of a batch: a quad joins `count` quads of its texture
/// only while `count < MAX_QUADS`, so that the index of its last corner,
/// `4 * count + 3`, fits in a `u32`.
pub const MAX_QUADS: u32 = 0x4000_0000;

/// The six indices that draw quad number `q` as the two triangles
/// (0, 1, 3) and (1, 2, 3) of its four corners.
pub open spec fn quad_index_block(q: int) -> Seq<u32> {
    seq![
        (4 * q) as u32, (4 * q + 1) as u32, (4 * q + 3) as u32,
        (4 * q + 1) as u32, (4 * q + 2) as u32, (4 * q + 3) as u32,
    ]
}

/// The index buffer of a batch that holds `n` quads: the blocks of quads
/// `0 .. n`, in order.
pub open spec fn quad_indices(n: nat) -> Seq<u32>
    decreases n,
{
    if n == 0 {
        Seq::empty()
    } else {
        quad_indices((n - 1) as nat) + quad_index_block(n - 1)
    }
}

/// The contents of a batch, handed out when it is flushed: the vertex data
/// of its quads and the indices that draw them.
pub struct Batch<F> {
    pub vertices: Vec<F>,
    pub indices: Vec<u32>,
}

/// Collects quads that share a texture so that they can be drawn with one
/// draw call.
///
/// Drawing a quad with another texture than the current one first hands
/// out everything collected so far, to be drawn with the old texture.
pub struct SpriteBatch<F> {
    vertex_buffer: Vec<F>,
    index_buffer: Vec<u32>,
    count: u32,
    current_texture: u32,
    projection: Vec<F>,
    /// The quads collected since the last flush, in the order drawn.
    pending_quads: Ghost<Seq<Quad<F>>>,
    /// The texture each of those quads was drawn with.
    pending_textures: Ghost<Seq<u32>>,
}

/// The vertex data of `quads`, one quad after another.
pub open spec fn quads_vertex_data<F: Copy>(quads: Seq<Quad<F>>) -> Seq<F>
    decreases quads.len(),
{
    if quads.len() == 0 {
        Seq::empty()
    } else {
        quads_vertex_data(quads.drop_last()) + quads.last().vertex_data()
    }
}

impl<F: Copy> SpriteBatch<F> {
    /// Number of quads collected since the last flush.
    pub closed spec fn count(self) -> nat {
        self.count as nat
    }

    /// The texture of the quads collected (0 before the first draw).
    pub closed spec fn texture(self) -> u32 {
        self.current_texture
    }

    /// The vertex data collected since the last flush.
    pub closed spec fn vertices(self) -> Seq<F> {
        self.vertex_buffer@
    }

    /// The indices collected since the last flush.
    pub closed spec fn indices(self) -> Seq<u32> {
        self.index_buffer@
    }

    /// The projection matrix, flattened.
    pub closed spec fn projection(self) -> Seq<F> {
        self.projection@
    }

    /// The quads collected since the last flush, in the order drawn.
    pub closed spec fn pending_quads(self) -> Seq<Quad<F>> {
        self.pending_quads@
    }

    /// The texture each collected quad was drawn with.
    pub closed spec fn pending_textures(self) -> Seq<u32> {
        self.pending_textures@
    }

    /// A batch is well formed when its buffers hold exactly the quads
    /// collected since the last flush: their vertex data in the order drawn,
    /// and six indices per quad in the fixed pattern; and when every one of
    /// those quads was drawn with the current texture, so that one draw
    /// call with one texture renders them all.
    pub open spec fn wf(self) -> bool {
        &&& self.count() <= MAX_QUADS
        &&& self.pending_quads().len() == self.count()
        &&& self.pending_textures().len() == self.count()
        &&& self.vertices() == quads_vertex_data(self.pending_quads())
        &&& self.indices() == quad_indices(self.count())
        &&& forall|i: int| 0 <= i < self.count() ==> #[trigger] self.pending_textures()[i] == self.texture()
    }
}

impl<F: Copy> SpriteBatch<F> {
    /// In a well-formed batch every index names a corner of a collected
    /// quad, and the nine scalars of that corner lie in the vertex buffer:
    /// the draw call never reads past the data it was given.
    pub proof fn lemma_indices_address_vertices(self)
        requires
            self.wf(),
        ensures
            self.indices().len() == QUAD_INDICES * self.count(),
            forall|i: int| 0 <= i < self.indices().len() ==> {
                &&& (#[trigger] self.indices()[i]) < 4 * self.count()
                &&& (self.indices()[i] + 1) * 9 <= self.vertices().len()
            },
    {
        lemma_quad_indices_len(self.count());
        lemma_quad_indices_bounded(self.count());
        lemma_quads_vertex_data_len(self.pending_quads());
        assert forall|i: int| 0 <= i < self.indices().len() implies
            (self.indices()[i] + 1) * 9 <= self.vertices().len() by {
            let k = self.indices()[i] as int;
            assert(k + 1 <= 4 * self.count());
            assert((k + 1) * 9 <= 36 * self.count()) by (nonlinear_arith)
                requires k + 1 <= 4 * self.count();
        }
    }
}

impl<F: Copy> SpriteBatch<F> {
    /// A well-formed batch never mixes textures and holds every quad drawn
    /// since the last flush exactly once, in the order drawn: the 36 scalars
    /// from `36 * k` on are the vertex data of the `k`-th pending quad, and
    /// every pending quad was drawn with the current texture.
    pub proof fn lemma_batch_layout(self)
        requires
            self.wf(),
        ensures
            self.vertices().len() == QUAD_COMPONENTS * self.count(),
            forall|k: int, j: int| 0 <= k < self.count() && 0 <= j < QUAD_COMPONENTS ==>
                #[trigger] self.vertices()[QUAD_COMPONENTS * k + j]
                    == #[trigger] self.pending_quads()[k].vertex_data()[j],
            forall|k: int| 0 <= k < self.count() ==> #[trigger] self.pending_textures()[k] == self.texture(),
    {
        lemma_quads_vertex_data_len(self.pending_quads());
        lemma_quads_vertex_data_layout(self.pending_quads());
    }

    /// Drawing `quads` one after another with one texture into an empty
    /// batch leaves exactly those quads pending, in order: the batch that a
    /// flush then hands out holds their vertex data concatenated and the
    /// indices of `quads.len()` quads, so every quad is rendered exactly
    /// once. `states[i + 1]` is the batch after the draw of `quads[i]` (what
    /// `draw` ensures when the texture does not change).
    pub proof fn lemma_draws_then_flush(states: Seq<SpriteBatch<F>>, quads: Seq<Quad<F>>, texture: u32)
        requires
            states.len() == quads.len() + 1,
            states[0].wf(),
            states[0].count() == 0,
            forall|i: int| 0 <= i < quads.len() ==> {
                &&& (#[trigger] states[i + 1]).wf()
                &&& states[i + 1].texture() == texture
                &&& states[i + 1].pending_quads() == states[i].pending_quads().push(quads[i])
            },
        ensures
            states.last().pending_quads() == quads,
            states.last().count() == quads.len(),
            states.last().vertices() == quads_vertex_data(quads),
            states.last().indices() == quad_indices(quads.len()),
            forall|k: int| 0 <= k < quads.len() ==> #[trigger] states.last().pending_textures()[k] == texture,
        decreases quads.len(),
    {
        if quads.len() == 0 {
            assert(states[0].pending_quads() =~= quads);
        } else {
            let n = quads.len() - 1;
            let prefix_states = states.take(n + 1);
            let prefix_quads = quads.take(n);
            assert forall|i: int| 0 <= i < prefix_quads.len() implies {
                &&& (#[trigger] prefix_states[i + 1]).wf()
                &&& prefix_states[i + 1].texture() == texture
                &&& prefix_states[i + 1].pending_quads() == prefix_states[i].pending_quads().push(prefix_quads[i])
            } by {
                assert(states[i + 1].wf());
            }
            Self::lemma_draws_then_flush(prefix_states, prefix_quads, texture);
            assert(prefix_states.last() == states[n]);
            assert(states[n + 1].wf());
            assert(states.last() == states[n + 1]);
            assert(states.last().pending_quads() =~= quads);
        }
    }
}

/// The quads `quads`, each paired with the texture `texture`.
pub open spec fn with_texture<F>(texture: u32, quads: Seq<Quad<F>>) -> Seq<(u32, Quad<F>)> {
    quads.map_values(|q: Quad<F>| (texture, q))
}

/// The quads of `groups`, group after group, each paired with the texture
/// of its group.
pub open spec fn expand_groups<F>(groups: Seq<(u32, Seq<Quad<F>>)>) -> Seq<(u32, Quad<F>)>
    decreases groups.len(),
{
    if groups.len() == 0 {
        Seq::empty()
    } else {
        expand_groups(groups.drop_last()) + with_texture(groups.last().0, groups.last().1)
    }
}

/// What a sequence of draws does to a batch that holds `pending`, collected
/// with `texture`: drawing the quads `items` (each with its texture) one
/// after another gives the groups that the draws hand out, each with the
/// texture it was collected with, then the texture and the pending quads
/// of the batch at the end.
pub open spec fn draw_sequence<F>(texture: u32, pending: Seq<Quad<F>>, items: Seq<(u32, Quad<F>)>)
    -> (Seq<(u32, Seq<Quad<F>>)>, u32, Seq<Quad<F>>)
    decreases items.len(),
{
    if items.len() == 0 {
        (Seq::empty(), texture, pending)
    } else {
        let before = draw_sequence(texture, pending, items.drop_last());
        let item = items.last();
        if item.0 != before.1 {
            (before.0.push((before.1, before.2)), item.0, seq![item.1])
        } else {
            (before.0, before.1, before.2.push(item.1))
        }
    }
}

/// Whether the batches `flushed`, each with a texture, hold the groups
/// `groups`: the same textures, and for each the vertex data of its quads
/// and the indices that draw them.
pub open spec fn batches_hold<F: Copy>(flushed: Seq<(u32, Batch<F>)>, groups: Seq<(u32, Seq<Quad<F>>)>) -> bool {
    &&& flushed.len() == groups.len()
    &&& forall|k: int| 0 <= k < groups.len() ==> {
        &&& (#[trigger] flushed[k]).0 == groups[k].0
        &&& flushed[k].1.vertices@ == quads_vertex_data(groups[k].1)
        &&& flushed[k].1.indices@ == quad_indices(groups[k].1.len())
    }
}

/// A sequence of draws renders every quad exactly once, in order, with the
/// texture it was drawn with: the groups handed out, then what stays
/// pending, are the quads that were pending followed by the quads drawn,
/// and no group mixes textures.
pub proof fn lemma_draw_sequence<F>(texture: u32, pending: Seq<Quad<F>>, items: Seq<(u32, Quad<F>)>)
    ensures
        ({
            let out = draw_sequence(texture, pending, items);
            expand_groups(out.0) + with_texture(out.1, out.2) == with_texture(texture, pending) + items
        }),
    decreases items.len(),
{
    if items.len() > 0 {
        let rest = items.drop_last();
        lemma_draw_sequence(texture, pending, rest);
        let before = draw_sequence(texture, pending, rest);
        let item = items.last();
        let out = draw_sequence(texture, pending, items);
        assert(items =~= rest.push(item));
        if item.0 != before.1 {
            let groups = before.0.push((before.1, before.2));
            assert(groups.drop_last() =~= before.0);
            assert(expand_groups(groups) == expand_groups(before.0) + with_texture(before.1, before.2));
            assert(with_texture(item.0, seq![item.1]) =~= seq![item]);
            assert(expand_groups(out.0) + with_texture(out.1, out.2)
                =~= expand_groups(before.0) + with_texture(before.1, before.2) + seq![item]);
        } else {
            assert(with_texture(before.1, before.2.push(item.1)) =~= with_texture(before.1, before.2).push(item));
            assert(expand_groups(out.0) + with_texture(out.1, out.2)
                =~= expand_groups(before.0) + with_texture(before.1, before.2) + seq![item]);
        }
        assert(with_texture(texture, pending) + items =~= with_texture(texture, pending) + rest + seq![item]);
    }
}

/// The entries of a 4x4 matrix given as four arrays, one after another.
pub open spec fn flatten4x4<F>(m: [[F; 4]; 4]) -> Seq<F> {
    m@[0]@ + m@[1]@ + m@[2]@ + m@[3]@
}

/// The flattened matrix has 16 entries, and entry `4r + c` is entry `c` of
/// array `r`.
pub proof fn lemma_flatten4x4_entries<F>(m: [[F; 4]; 4])
    ensures
        flatten4x4(m).len() == 16,
        forall|r: int, c: int| 0 <= r < 4 && 0 <= c < 4 ==> #[trigger] flatten4x4(m)[4 * r + c] == m@[r]@[c],
{
    assert forall|r: int, c: int| 0 <= r < 4 && 0 <= c < 4 implies #[trigger] flatten4x4(m)[4 * r + c] == m@[r]@[c] by {
        if r == 0 {
        } else if r == 1 {
        } else if r == 2 {
        } else {
        }
    }
}


/// The vertex data of `quads` has 36 scalars per quad.
pub proof fn lemma_quads_vertex_data_len<F: Copy>(quads: Seq<Quad<F>>)
    ensures
        quads_vertex_data(quads).len() == QUAD_COMPONENTS * quads.len(),
    decreases quads.len(),
{
    if quads.len() > 0 {
        lemma_quads_vertex_data_len(quads.drop_last());
    }
}

/// In the vertex data of `quads`, the 36 scalars from `36 * k` on are the
/// vertex data of quad `k`: each quad appears exactly once, in order.
pub proof fn lemma_quads_vertex_data_layout<F: Copy>(quads: Seq<Quad<F>>)
    ensures
        forall|k: int, j: int| 0 <= k < quads.len() && 0 <= j < QUAD_COMPONENTS ==>
            #[trigger] quads_vertex_data(quads)[QUAD_COMPONENTS * k + j] == #[trigger] quads[k].vertex_data()[j],
    decreases quads.len(),
{
    if quads.len() > 0 {
        let prefix = quads.drop_last();
        lemma_quads_vertex_data_layout(prefix);
        lemma_quads_vertex_data_len(prefix);
        let n = prefix.len() as int;
        assert forall|k: int, j: int| 0 <= k < quads.len() && 0 <= j < QUAD_COMPONENTS implies
            #[trigger] quads_vertex_data(quads)[QUAD_COMPONENTS * k + j] == #[trigger] quads[k].vertex_data()[j] by {
            let whole = quads_vertex_data(quads);
            assert(whole == quads_vertex_data(prefix) + quads.last().vertex_data());
            if k < n {
                assert(QUAD_COMPONENTS * k + j < QUAD_COMPONENTS * n) by (nonlinear_arith)
                    requires k < n, 0 <= j < 36int;
                assert(prefix[k] == quads[k]);
            } else {
                assert(k == n);
                assert(whole[QUAD_COMPONENTS * k + j] == quads.last().vertex_data()[j]);
            }
        }
    }
}

/// The index buffer of `n` quads has six entries per quad.
pub proof fn lemma_quad_indices_len(n: nat)
    ensures
        quad_indices(n).len() == 6 * n,
    decreases n,
{
    if n > 0 {
        lemma_quad_indices_len((n - 1) as nat);
    }
}

/// Every index in the index buffer of `n` quads names one of the `4 * n`
/// corners of those quads.
pub proof fn lemma_quad_indices_bounded(n: nat)
    requires
        n <= MAX_QUADS,
    ensures
        forall|i: int| 0 <= i < quad_indices(n).len() ==> (#[trigger] quad_indices(n)[i]) < 4 * n,
    decreases n,
{
    if n > 0 {
        let m = (n - 1) as nat;
        lemma_quad_indices_bounded(m);
        lemma_quad_indices_len(m);
        let prev = quad_indices(m);
        let block = quad_index_block(m as int);
        assert(quad_indices(n) == prev + block);
        assert forall|i: int| 0 <= i < quad_indices(n).len() implies (#[trigger] quad_indices(n)[i]) < 4 * n by {
            if i < prev.len() {
                assert(quad_indices(n)[i] == prev[i]);
            } else {
                assert(quad_indices(n)[i] == block[i - prev.len()]);
            }
        }
    }
}

/// In the index buffer of `n` quads, the six entries from `6 * k` on are
/// `4k, 4k + 1, 4k + 3, 4k + 1, 4k + 2, 4k + 3`: quad `k` is drawn as two
/// triangles over its own four corners `4k .. 4k + 3`.
pub proof fn lemma_quad_indices_exact(n: nat)
    requires
        n <= MAX_QUADS,
    ensures
        quad_indices(n).len() == 6 * n,
        forall|k: int| 0 <= k < n ==> {
            &&& #[trigger] quad_indices(n)[6 * k] == 4 * k
            &&& quad_indices(n)[6 * k + 1] == 4 * k + 1
            &&& quad_indices(n)[6 * k + 2] == 4 * k + 3
            &&& quad_indices(n)[6 * k + 3] == 4 * k + 1
            &&& quad_indices(n)[6 * k + 4] == 4 * k + 2
            &&& quad_indices(n)[6 * k + 5] == 4 * k + 3
        },
    decreases n,
{
    lemma_quad_indices_len(n);
    if n > 0 {
        let m = (n - 1) as nat;
        lemma_quad_indices_exact(m);
        lemma_quad_indices_len(m);
        let prev = quad_indices(m);
        let block = quad_index_block(m as int);
        assert(quad_indices(n) == prev + block);
        assert forall|k: int| 0 <= k < n implies {
            &&& #[trigger] quad_indices(n)[6 * k] == 4 * k
            &&& quad_indices(n)[6 * k + 1] == 4 * k + 1
            &&& quad_indices(n)[6 * k + 2] == 4 * k + 3
            &&& quad_indices(n)[6 * k + 3] == 4 * k + 1
            &&& quad_indices(n)[6 * k + 4] == 4 * k + 2
            &&& quad_indices(n)[6 * k + 5] == 4 * k + 3
        } by {
            if k < m {
                assert(6 * k + 5 < 6 * m) by (nonlinear_arith)
                    requires k < m;
                assert(prev[6 * k] == 4 * k);
            } else {
                assert(k == m);
                assert(4 * k + 3 < 0x1_0000_0000) by (nonlinear_arith)
                    requires k < MAX_QUADS;
            }
        }
    }
}

impl<F: Copy> SpriteBatch<F> {
    /// In a well-formed batch of `count` quads, the six indices of quad `k`
    /// (at positions `6k .. 6k + 6`) are `4k, 4k + 1, 4k + 3, 4k + 1,
    /// 4k + 2, 4k + 3`: each quad's two triangles name its own corners.
    pub proof fn lemma_indices_of_each_quad(self)
        requires
            self.wf(),
        ensures
            self.indices().len() == 6 * self.count(),
            forall|k: int| 0 <= k < self.count() ==> {
                &&& #[trigger] self.indices()[6 * k] == 4 * k
                &&& self.indices()[6 * k + 1] == 4 * k + 1
                &&& self.indices()[6 * k + 2] == 4 * k + 3
                &&& self.indices()[6 * k + 3] == 4 * k + 1
                &&& self.indices()[6 * k + 4] == 4 * k + 2
                &&& self.indices()[6 * k + 5] == 4 * k + 3
            },
    {
        lemma_quad_indices_exact(self.count());
    }
}

/// Appends the six indices of quad number `q` to `indices`.
fn push_quad_indices(indices: &mut Vec<u32>, q: u32)
    requires
        q < MAX_QUADS,
    ensures
        final(indices)@ == old(indices)@ + quad_index_block(q as int),
        final(indices)@.len() == old(indices)@.len() + 6,
        final(indices)@[old(indices)@.len() as int] == 4 * q,
        final(indices)@[old(indices)@.len() + 1int] == 4 * q + 1,
        final(indices)@[old(indices)@.len() + 2int] == 4 * q + 3,
        final(indices)@[old(indices)@.len() + 3int] == 4 * q + 1,
        final(indices)@[old(indices)@.len() + 4int] == 4 * q + 2,
        final(indices)@[old(indices)@.len() + 5int] == 4 * q + 3,
{
    let base: u32 = q * 4;
    indices.push(base);
    indices.push(base + 1);
    indices.push(base + 3);
    indices.push(base + 1);
    indices.push(base + 2);
    indices.push(base + 3);
}

/// Appends the four entries of `row` to `out`.
fn push_row<F: Copy>(out: &mut Vec<F>, row: &[F; 4])
    ensures
        final(out)@ == old(out)@ + row@,
{
    out.push(row[0]);
    out.push(row[1]);
    out.push(row[2]);
    out.push(row[3]);
    assert(final(out)@ =~= old(out)@ + row@);
}

impl<F: Copy> SpriteBatch<F> {
    /// An empty batch that draws with the given projection matrix, whose
    /// four arrays are stored one after another.
    pub fn new(projection: [[F; 4]; 4]) -> (batch: SpriteBatch<F>)
        ensures
            batch.wf(),
            batch.count() == 0,
            batch.texture() == 0,
            batch.vertices() == Seq::<F>::empty(),
            batch.indices() == Seq::<u32>::empty(),
            batch.pending_quads() == Seq::<Quad<F>>::empty(),
            batch.projection() == flatten4x4(projection),
    {
        let mut flat: Vec<F> = Vec::with_capacity(16);
        push_row(&mut flat, &projection[0]);
        push_row(&mut flat, &projection[1]);
        push_row(&mut flat, &projection[2]);
        push_row(&mut flat, &projection[3]);
        SpriteBatch {
            vertex_buffer: Vec::with_capacity(400000),
            index_buffer: Vec::with_capacity(400000),
            count: 0,
            current_texture: 0,
            projection: flat,
            pending_quads: Ghost(Seq::empty()),
            pending_textures: Ghost(Seq::empty()),
        }
    }

    /// Adds `quad`, drawn with `texture`, to the batch.
    ///
    /// When `texture` differs from the texture of the quads collected so
    /// far, those quads are handed out first, as a batch to be drawn with the
    /// old texture; the new quad then starts a batch of its own.
    pub fn draw(&mut self, texture: u32, quad: &Quad<F>) -> (flushed: Option<Batch<F>>)
        requires
            old(self).wf(),
            old(self).texture() != texture || old(self).count() < MAX_QUADS,
        ensures
            final(self).wf(),
            final(self).texture() == texture,
            final(self).projection() == old(self).projection(),
            old(self).texture() != texture ==> {
                &&& flushed is Some
                &&& flushed->0.vertices@ == old(self).vertices()
                &&& flushed->0.indices@ == old(self).indices()
                &&& flushed->0.vertices@ == quads_vertex_data(old(self).pending_quads())
                &&& final(self).count() == 1
                &&& final(self).pending_quads() == seq![*quad]
                &&& final(self).pending_textures() == seq![texture]
                &&& final(self).vertices() == quad.vertex_data()
            },
            old(self).texture() == texture ==> {
                &&& flushed is None
                &&& final(self).count() == old(self).count() + 1
                &&& final(self).pending_quads() == old(self).pending_quads().push(*quad)
                &&& final(self).pending_textures() == old(self).pending_textures().push(texture)
                &&& final(self).vertices() == old(self).vertices() + quad.vertex_data()
            },
    {
        let flushed = if self.current_texture != texture {
            Some(self.flush())
        } else {
            None
        };
        self.current_texture = texture;
        let mut data = quad.to_vertex_data();
        self.vertex_buffer.append(&mut data);
        push_quad_indices(&mut self.index_buffer, self.count);
        self.count = self.count + 1;
        proof {
            let quads = self.pending_quads@;
            self.pending_quads = Ghost(quads.push(*quad));
            self.pending_textures = Ghost(self.pending_textures@.push(texture));
            assert(self.pending_quads@.drop_last() =~= quads);
        }
        flushed
    }

    /// Hands out everything collected since the last flush and empties the
    /// batch; the current texture stays.
    pub fn flush(&mut self) -> (batch: Batch<F>)
        requires
            old(self).wf(),
        ensures
            final(self).wf(),
            batch.vertices@ == old(self).vertices(),
            batch.indices@ == old(self).indices(),
            batch.vertices@ == quads_vertex_data(old(self).pending_quads()),
            batch.indices@ == quad_indices(old(self).pending_quads().len()),
            final(self).count() == 0,
            final(self).pending_quads() == Seq::<Quad<F>>::empty(),
            final(self).pending_textures() == Seq::<u32>::empty(),
            final(self).vertices() == Seq::<F>::empty(),
            final(self).indices() == Seq::<u32>::empty(),
            final(self).texture() == old(self).texture(),
            final(self).projection() == old(self).projection(),
    {
        let mut vertices: Vec<F> = Vec::new();
        let mut indices: Vec<u32> = Vec::new();
        std::mem::swap(&mut vertices, &mut self.vertex_buffer);
        std::mem::swap(&mut indices, &mut self.index_buffer);
        self.count = 0;
        proof {
            self.pending_quads = Ghost(Seq::empty());
            self.pending_textures = Ghost(Seq::empty());
        }
        Batch { vertices, indices }
    }

    /// Number of quads collected since the last flush.
    pub fn quad_count(&self) -> (n: u32)
        ensures
            n == self.count(),
    {
        self.count
    }

    /// The texture of the quads collected.
    pub fn current_texture(&self) -> (t: u32)
        ensures
            t == self.texture(),
    {
        self.current_texture
    }

    /// The projection matrix, flattened.
    pub fn projection_data(&self) -> (p: &Vec<F>)
        ensures
            p@ == self.projection(),
    {
        &self.projection
    }
}

} // verus!
