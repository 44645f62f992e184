use vstd::prelude::*;

verus! {

/// One corner of a sprite as it is sent to the GPU: a position in space,
/// an RGBA colour and a texture coordinate.
///
/// The scalar type is a parameter; the game uses `f32`.
#[derive(Debug)]
pub struct Vertex<F> {
    pub pos: (F, F, F),
    pub color: (F, F, F, F),
    pub uv: (F, F),
}

impl<F: Copy> Vertex<F> {
    /// The scalars of a vertex in buffer order: x, y, z, r, g, b, a, u, v.
    pub open spec fn components(self) -> Seq<F> {
        seq![
            self.pos.0, self.pos.1, self.pos.2,
            self.color.0, self.color.1, self.color.2, self.color.3,
            self.uv.0, self.uv.1,
        ]
    }

    /// Appends the scalars of this vertex, in buffer order, to `out`.
    pub fn push_components(&self, out: &mut Vec<F>)
        ensures
            final(out)@ == old(out)@ + self.components(),
    {
        out.push(self.pos.0);
        out.push(self.pos.1);
        out.push(self.pos.2);
        out.push(self.color.0);
        out.push(self.color.1);
        out.push(self.color.2);
        out.push(self.color.3);
        out.push(self.uv.0);
        out.push(self.uv.1);
    }
}

impl<F: Copy> Clone for Vertex<F> {
    fn clone(&self) -> (v: Self)
        ensures
            v == *self,
    {
        Vertex { pos: self.pos, color: self.color, uv: self.uv }
    }
}

} // verus!
