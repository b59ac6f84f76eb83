//! The vertex record that the backend reads.

use vstd::prelude::*;
use crate::geometry::{Scalar, Vec3, NEG_ONE_BITS, ZERO_BITS};

verus! {

/// The number of 32-bit words that a vertex takes in a buffer.
pub const VERTEX_WORDS: usize = 6;

/// One vertex of a shape: texture coordinates, packed colour, position.
///
/// The backend reads a vertex as six 32-bit words in the order of
/// [`Vertex::words`]; the vertex format named at submission describes
/// exactly this record.
#[derive(Clone, Copy, Debug, PartialEq, Eq, Structural)]
pub struct Vertex {
    pub u: Scalar,
    pub v: Scalar,
    pub color: u32,
    pub x: Scalar,
    pub y: Scalar,
    pub z: Scalar,
}

impl Vertex {
    /// The untextured vertex at `point`.
    pub open spec fn spec_untextured(color: u32, point: Vec3) -> Vertex {
        Vertex {
            u: Scalar::zero(),
            v: Scalar::zero(),
            color,
            x: point.x,
            y: point.y,
            z: point.z,
        }
    }

    /// The untextured vertex at `point`, carrying the packed colour `color`.
    #[verifier::when_used_as_spec(spec_untextured)]
    pub fn untextured(color: u32, point: Vec3) -> (vertex: Vertex)
        ensures
            vertex == Vertex::spec_untextured(color, point),
    {
        Vertex {
            u: Scalar { bits: ZERO_BITS },
            v: Scalar { bits: ZERO_BITS },
            color,
            x: point.x,
            y: point.y,
            z: point.z,
        }
    }

    /// The place of the vertex.
    pub open spec fn point(self) -> Vec3 {
        Vec3 { x: self.x, y: self.y, z: self.z }
    }

    /// The untextured vertex at `(x, y)` on the plane `z = -1.0`.
    pub open spec fn spec_flat(color: u32, x: Scalar, y: Scalar) -> Vertex {
        Vertex { u: Scalar::zero(), v: Scalar::zero(), color, x, y, z: Scalar::neg_one() }
    }

    /// The untextured vertex at `(x, y)` on the plane `z = -1.0`, carrying
    /// the packed colour `color`.
    #[verifier::when_used_as_spec(spec_flat)]
    pub fn flat(color: u32, x: Scalar, y: Scalar) -> (vertex: Vertex)
        ensures
            vertex == Vertex::spec_flat(color, x, y),
    {
        Vertex {
            u: Scalar { bits: ZERO_BITS },
            v: Scalar { bits: ZERO_BITS },
            color,
            x,
            y,
            z: Scalar { bits: NEG_ONE_BITS },
        }
    }

    /// The vertex as the backend reads it: `u`, `v`, colour, `x`, `y`, `z`.
    pub open spec fn wire(self) -> Seq<u32> {
        seq![self.u.bits, self.v.bits, self.color, self.x.bits, self.y.bits, self.z.bits]
    }

    /// The six words of the vertex in wire order.
    pub fn words(&self) -> (words: [u32; 6])
        ensures
            words@ == self.wire(),
    {
        let words: [u32; 6] = [
            self.u.bits,
            self.v.bits,
            self.color,
            self.x.bits,
            self.y.bits,
            self.z.bits,
        ];
        assert(words@ =~= self.wire());
        words
    }
}

/// A vertex buffer as the backend reads it: the vertices one after another
/// without gaps, each in wire order.
pub open spec fn wire_image(vertices: Seq<Vertex>) -> Seq<u32> {
    Seq::new(
        (VERTEX_WORDS * vertices.len()) as nat,
        |k: int| vertices[k / VERTEX_WORDS as int].wire()[k % VERTEX_WORDS as int],
    )
}

/// Lays a vertex buffer out as the words that the backend reads.
pub fn wire_words(vertices: &[Vertex]) -> (words: Vec<u32>)
    ensures
        words@ == wire_image(vertices@),
{
    let mut words: Vec<u32> = Vec::new();
    let mut i: usize = 0;
    while i < vertices.len()
        invariant
            i <= vertices.len(),
            words@.len() == VERTEX_WORDS * i,
            forall|k: int|
                0 <= k < words@.len() ==> #[trigger] words@[k] == vertices@[k
                    / VERTEX_WORDS as int].wire()[k % VERTEX_WORDS as int],
        decreases vertices.len() - i,
    {
        let vertex = vertices[i];
        words.push(vertex.u.bits);
        words.push(vertex.v.bits);
        words.push(vertex.color);
        words.push(vertex.x.bits);
        words.push(vertex.y.bits);
        words.push(vertex.z.bits);
        i = i + 1;
    }
    assert(words@ =~= wire_image(vertices@));
    words
}

impl Default for Vertex {
    /// The vertex whose every word is zero.
    fn default() -> (vertex: Vertex)
        ensures
            vertex.wire() == seq![0u32, 0u32, 0u32, 0u32, 0u32, 0u32],
    {
        let zero = Scalar { bits: ZERO_BITS };
        Vertex { u: zero, v: zero, color: 0, x: zero, y: zero, z: zero }
    }
}

} // verus!
