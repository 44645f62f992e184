use vstd::prelude::*;
use crate::vertex::Vertex;

verus! {

/// Four vertices that form one textured rectangle, in the order
/// top-right, bottom-right, bottom-left, top-left of the sprite.
#[derive(Debug)]
pub struct Quad<F>(pub Vertex<F>, pub Vertex<F>, pub Vertex<F>, pub Vertex<F>);

/// Number of scalars one quad occupies in a vertex buffer.
pub const QUAD_COMPONENTS: usize = 36;

impl<F: Copy> Quad<F> {
    /// The vertex data of the quad: the components of its four vertices,
    /// one after the other.
    pub open spec fn vertex_data(self) -> Seq<F> {
        self.0.components() + self.1.components() + self.2.components() + self.3.components()
    }

    /// Builds a quad from its four vertices.
    pub fn new(v1: Vertex<F>, v2: Vertex<F>, v3: Vertex<F>, v4: Vertex<F>) -> (q: Quad<F>)
        ensures
            q == Quad(v1, v2, v3, v4),
    {
        Quad(v1, v2, v3, v4)
    }

    /// The quad of an axis-aligned sprite: corners `(x1, y1)` and `(x2, y2)`
    /// at depth `z`, every corner of colour `color`, showing the texture
    /// region from `(u1, v1)` to `(u2, v2)`. The vertices run
    /// `(x2, y2)`, `(x2, y1)`, `(x1, y1)`, `(x1, y2)`, and each takes the
    /// texture coordinate of the same corner of the region.
    pub fn sprite(
        x1: F, y1: F, x2: F, y2: F, z: F,
        color: (F, F, F, F),
        u1: F, v1: F, u2: F, v2: F,
    ) -> (q: Quad<F>)
        ensures
            q.0 == (Vertex { pos: (x2, y2, z), color, uv: (u2, v2) }),
            q.1 == (Vertex { pos: (x2, y1, z), color, uv: (u2, v1) }),
            q.2 == (Vertex { pos: (x1, y1, z), color, uv: (u1, v1) }),
            q.3 == (Vertex { pos: (x1, y2, z), color, uv: (u1, v2) }),
    {
        Quad::new(
            Vertex { pos: (x2, y2, z), color, uv: (u2, v2) },
            Vertex { pos: (x2, y1, z), color, uv: (u2, v1) },
            Vertex { pos: (x1, y1, z), color, uv: (u1, v1) },
            Vertex { pos: (x1, y2, z), color, uv: (u1, v2) },
        )
    }

    /// The vertex data of the quad as a flat buffer of 36 scalars.
    pub fn to_vertex_data(&self) -> (data: Vec<F>)
        ensures
            data@ == self.vertex_data(),
            data@.len() == QUAD_COMPONENTS,
    {
        let mut data: Vec<F> = Vec::new();
        self.0.push_components(&mut data);
        self.1.push_components(&mut data);
        self.2.push_components(&mut data);
        self.3.push_components(&mut data);
        data
    }
}

/// The vertex data of a quad, position by position: vertex `v` (0 to 3)
/// fills positions `9v .. 9v + 9` with x, y, z, r, g, b, a, u, v.
pub proof fn lemma_vertex_data_layout<F: Copy>(q: Quad<F>)
    ensures
        q.vertex_data().len() == 36,
        ({
            let d = q.vertex_data();
            &&& d[0] == q.0.pos.0
            &&& d[1] == q.0.pos.1
            &&& d[2] == q.0.pos.2
            &&& d[3] == q.0.color.0
            &&& d[4] == q.0.color.1
            &&& d[5] == q.0.color.2
            &&& d[6] == q.0.color.3
            &&& d[7] == q.0.uv.0
            &&& d[8] == q.0.uv.1
            &&& d[9] == q.1.pos.0
            &&& d[10] == q.1.pos.1
            &&& d[11] == q.1.pos.2
            &&& d[12] == q.1.color.0
            &&& d[13] == q.1.color.1
            &&& d[14] == q.1.color.2
            &&& d[15] == q.1.color.3
            &&& d[16] == q.1.uv.0
            &&& d[17] == q.1.uv.1
            &&& d[18] == q.2.pos.0
            &&& d[19] == q.2.pos.1
            &&& d[20] == q.2.pos.2
            &&& d[21] == q.2.color.0
            &&& d[22] == q.2.color.1
            &&& d[23] == q.2.color.2
            &&& d[24] == q.2.color.3
            &&& d[25] == q.2.uv.0
            &&& d[26] == q.2.uv.1
            &&& d[27] == q.3.pos.0
            &&& d[28] == q.3.pos.1
            &&& d[29] == q.3.pos.2
            &&& d[30] == q.3.color.0
            &&& d[31] == q.3.color.1
            &&& d[32] == q.3.color.2
            &&& d[33] == q.3.color.3
            &&& d[34] == q.3.uv.0
            &&& d[35] == q.3.uv.1
        }),
{
    let d = q.vertex_data();
    assert(d.len() == 36);
    assert(d[0] == q.0.pos.0);
    assert(d[1] == q.0.pos.1);
    assert(d[2] == q.0.pos.2);
    assert(d[3] == q.0.color.0);
    assert(d[4] == q.0.color.1);
    assert(d[5] == q.0.color.2);
    assert(d[6] == q.0.color.3);
    assert(d[7] == q.0.uv.0);
    assert(d[8] == q.0.uv.1);
    assert(d[9] == q.1.pos.0);
    assert(d[10] == q.1.pos.1);
    assert(d[11] == q.1.pos.2);
    assert(d[12] == q.1.color.0);
    assert(d[13] == q.1.color.1);
    assert(d[14] == q.1.color.2);
    assert(d[15] == q.1.color.3);
    assert(d[16] == q.1.uv.0);
    assert(d[17] == q.1.uv.1);
    assert(d[18] == q.2.pos.0);
    assert(d[19] == q.2.pos.1);
    assert(d[20] == q.2.pos.2);
    assert(d[21] == q.2.color.0);
    assert(d[22] == q.2.color.1);
    assert(d[23] == q.2.color.2);
    assert(d[24] == q.2.color.3);
    assert(d[25] == q.2.uv.0);
    assert(d[26] == q.2.uv.1);
    assert(d[27] == q.3.pos.0);
    assert(d[28] == q.3.pos.1);
    assert(d[29] == q.3.pos.2);
    assert(d[30] == q.3.color.0);
    assert(d[31] == q.3.color.1);
    assert(d[32] == q.3.color.2);
    assert(d[33] == q.3.color.3);
    assert(d[34] == q.3.uv.0);
    assert(d[35] == q.3.uv.1);
}

impl<F: Copy> Clone for Quad<F> {
    fn clone(&self) -> (q: Self)
        ensures
            q == *self,
    {
        Quad(self.0.clone(), self.1.clone(), self.2.clone(), self.3.clone())
    }
}

} // verus!
