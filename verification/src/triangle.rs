//! The triangle.

use vstd::prelude::*;
use vstd::slice::slice_to_vec;
use crate::backend::{
    Capability, DrawCall, DrawCallView, MatrixMode, RenderCommand, Topology, VertexFormat,
};
use crate::color::Color;
use crate::drawable::{Drawable, ShapeError};
use crate::geometry::{Scalar, Vec2, Vec3, NEG_ONE_BITS};
use crate::vertex::Vertex;

verus! {

/// Every vertex of `vertices` is untextured and carries `packed`.
spec fn all_untextured(vertices: Seq<Vertex>, packed: u32) -> bool {
    forall|i: int|
        0 <= i < vertices.len() ==> #[trigger] vertices[i] == Vertex::untextured(
            packed,
            vertices[i].point(),
        )
}

/// A filled triangle.
///
/// The vertices keep the coordinates they were given, all three of each
/// point. The position starts out as the second point and is added to them
/// when the triangle is drawn: it is an offset on top of the given
/// coordinates, not their origin. The order of the points is kept as given.
pub struct Triangle {
    vertices: [Vertex; 3],
    position: Vec3,
    color: Color,
}

/// What a [`Triangle`] is: its vertex buffer follows from its corners and
/// its colour.
pub struct TriangleView {
    /// The three corners, in the order in which they are drawn.
    pub corners: Seq<Vec3>,
    pub position: Vec3,
    pub color: Color,
}

impl TriangleView {
    /// The vertex buffer: each corner where it was given, in the triangle's
    /// colour.
    pub open spec fn vertices(self) -> Seq<Vertex> {
        Seq::new(
            self.corners.len(),
            |i: int| Vertex::untextured(self.color.packed(), self.corners[i]),
        )
    }

    /// The draw of a triangle: from the identity, move by the `x` and `y` of
    /// the position and to the near plane, and submit the three vertices.
    pub open spec fn submission(self) -> DrawCallView {
        DrawCallView {
            vertices: self.vertices(),
            indices: None,
            commands: seq![
                RenderCommand::SetRenderState { capability: Capability::Texture2D, enabled: false },
                RenderCommand::MatrixMode(MatrixMode::Model),
                RenderCommand::LoadIdentity,
                RenderCommand::Translate(
                    Vec3 { x: self.position.x, y: self.position.y, z: Scalar::neg_one() },
                ),
                RenderCommand::FlushCache,
                RenderCommand::Submit {
                    topology: Topology::Triangles,
                    format: VertexFormat::of_vertex(false),
                    count: 3,
                },
            ],
        }
    }
}

impl View for Triangle {
    type V = TriangleView;

    closed spec fn view(&self) -> TriangleView {
        TriangleView {
            corners: Seq::new(3, |i: int| self.vertices@[i].point()),
            position: self.position,
            color: self.color,
        }
    }
}

impl Triangle {
    /// The stored buffer is that of the corners and the colour.
    #[verifier::type_invariant]
    spec fn buffer_current(self) -> bool {
        all_untextured(self.vertices@, self.color.packed())
    }

    /// The invariant in terms of the view.
    proof fn lemma_buffer_current(self)
        requires
            self.buffer_current(),
        ensures
            self.vertices@ == self@.vertices(),
    {
        assert(self.vertices@ =~= self@.vertices());
    }

    /// A triangle has three corners.
    pub proof fn lemma_three_corners(self)
        ensures
            self@.corners.len() == 3,
            self@.vertices().len() == 3,
    {
    }

    /// The draw of a triangle replaces the selected matrix: it starts from the
    /// identity and opens no transform scope, so a transform that the caller
    /// had set up is gone after it.
    pub proof fn law_draw_replaces_transform(triangle: Triangle)
        ensures
            triangle@.submission().commands[2] == RenderCommand::LoadIdentity,
            !triangle@.submission().keeps_transform(),
    {
        let call = triangle@.submission();
        assert forall|push: int, pop: int| !#[trigger] call.scoped_between(push, pop) by {
            if call.scoped_between(push, pop) {
                assert(call.commands[push] is PushTransform);
            }
        }
    }

    /// The triangle through `vertices` in the colour `color`, placed at the
    /// second of them. Each point goes into the vertex buffer as it is, with
    /// its `x`, `y` and `z`.
    pub fn new(vertices: [Vec3; 3], color: Color) -> (triangle: Triangle)
        ensures
            triangle@ == (TriangleView { corners: vertices@, position: vertices@[1], color }),
            triangle@.vertices() == seq![
                Vertex::untextured(color.packed(), vertices@[0]),
                Vertex::untextured(color.packed(), vertices@[1]),
                Vertex::untextured(color.packed(), vertices@[2]),
            ],
    {
        let packed = color.as_abgr();
        let buffer: [Vertex; 3] = [
            Vertex::untextured(packed, vertices[0]),
            Vertex::untextured(packed, vertices[1]),
            Vertex::untextured(packed, vertices[2]),
        ];
        assert(all_untextured(buffer@, color.packed()));
        let triangle = Triangle {
            vertices: buffer,
            position: Vec3::new(vertices[1].x, vertices[1].y, vertices[1].z),
            color,
        };
        assert(triangle@.corners =~= vertices@);
        assert(triangle@.vertices() =~= seq![
            Vertex::untextured(color.packed(), vertices@[0]),
            Vertex::untextured(color.packed(), vertices@[1]),
            Vertex::untextured(color.packed(), vertices@[2]),
        ]);
        triangle
    }

    /// The vertex buffer as it stands.
    pub fn vertices(&self) -> (vertices: [Vertex; 3])
        ensures
            vertices@ == self@.vertices(),
    {
        proof {
            use_type_invariant(self);
            self.lemma_buffer_current();
        }
        self.vertices
    }

    /// The colour that the triangle was made with.
    pub fn get_color(&self) -> (color: Color)
        ensures
            color == self@.color,
    {
        self.color
    }
}

impl Clone for Triangle {
    fn clone(&self) -> (copy: Triangle)
        ensures
            copy == *self,
    {
        proof {
            use_type_invariant(self);
        }
        Triangle { vertices: self.vertices, position: self.position, color: self.color }
    }
}

impl Drawable for Triangle {
    open spec fn position(&self) -> Vec3 {
        self@.position
    }

    open spec fn size(&self) -> Option<Vec2> {
        None
    }

    open spec fn scale(&self) -> Option<Vec2> {
        None
    }

    open spec fn rotation(&self) -> Option<Scalar> {
        None
    }

    open spec fn submission(&self) -> DrawCallView {
        self@.submission()
    }

    fn draw(&mut self) -> (call: DrawCall) {
        proof {
            use_type_invariant(&*self);
            self.lemma_buffer_current();
        }
        let mut commands: Vec<RenderCommand> = Vec::new();
        commands.push(
            RenderCommand::SetRenderState { capability: Capability::Texture2D, enabled: false },
        );
        commands.push(RenderCommand::MatrixMode(MatrixMode::Model));
        commands.push(RenderCommand::LoadIdentity);
        commands.push(
            RenderCommand::Translate(
                Vec3 { x: self.position.x, y: self.position.y, z: Scalar { bits: NEG_ONE_BITS } },
            ),
        );
        commands.push(RenderCommand::FlushCache);
        commands.push(
            RenderCommand::Submit {
                topology: Topology::Triangles,
                format: VertexFormat::of_vertex(false),
                count: 3,
            },
        );
        let call = DrawCall { vertices: slice_to_vec(&self.vertices), indices: None, commands };
        proof {
            assert(call@.commands =~= self@.submission().commands);
            assert(call@.commands[4] == RenderCommand::FlushCache);
        }
        call
    }

    fn get_size(&mut self) -> (size: Result<Vec2, ShapeError>) {
        Err(ShapeError::Unsupported)
    }

    fn set_size(&mut self, new_size: Vec2) -> (done: Result<(), ShapeError>) {
        Err(ShapeError::Unsupported)
    }

    fn get_scale(&mut self) -> (scale: Result<Vec2, ShapeError>) {
        Err(ShapeError::Unsupported)
    }

    fn set_scale(&mut self, new_scale: Vec2) -> (done: Result<(), ShapeError>) {
        Err(ShapeError::Unsupported)
    }

    fn get_pos(&mut self) -> (position: Vec3) {
        self.position
    }

    /// Moves the triangle. The vertices are left alone: the position is
    /// applied when the triangle is drawn.
    fn set_pos(&mut self, new_position: Vec3)
        ensures
            final(self)@ == (TriangleView { position: new_position, ..old(self)@ }),
    {
        proof {
            use_type_invariant(&*self);
        }
        self.position = new_position;
    }

    fn get_rot(&mut self) -> (rotation: Result<Scalar, ShapeError>) {
        Err(ShapeError::Unsupported)
    }

    fn set_rot(&mut self, new_rotation: Scalar) -> (done: Result<(), ShapeError>) {
        Err(ShapeError::Unsupported)
    }
}

} // verus!
