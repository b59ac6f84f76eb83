//! The axis-aligned rectangle.

use vstd::prelude::*;
use vstd::slice::slice_to_vec;
use crate::backend::{
    Capability, DrawCall, DrawCallView, MatrixMode, RenderCommand, Topology, VertexFormat,
};
use crate::color::Color;
use crate::drawable::{property, Drawable, ShapeError};
use crate::geometry::{Scalar, Vec2, Vec3, NEG_ONE_BITS, ZERO_BITS};
use crate::vertex::Vertex;

verus! {

/// The four corners of a rectangle of extent `size`, in buffer order:
/// `(0, 0)`, `(w, 0)`, `(0, h)`, `(w, h)`, each carrying `packed`.
pub open spec fn rect_corners(size: Vec2, packed: u32) -> Seq<Vertex> {
    seq![
        Vertex::flat(packed, Scalar::zero(), Scalar::zero()),
        Vertex::flat(packed, size.x, Scalar::zero()),
        Vertex::flat(packed, Scalar::zero(), size.y),
        Vertex::flat(packed, size.x, size.y),
    ]
}

/// The rectangle as two triangles that share the diagonal from corner 1 to
/// corner 2.
pub open spec fn rect_indices() -> Seq<u16> {
    seq![0u16, 1u16, 2u16, 2u16, 1u16, 3u16]
}

/// A filled rectangle. Its lower corner lies at its position, and it is
/// turned about that corner.
pub struct Rect {
    vertices: [Vertex; 4],
    indices: [u16; 6],
    position: Vec3,
    size: Vec2,
    rotation: Scalar,
    color: Color,
}

/// What a [`Rect`] is: its buffers follow from its size and colour.
pub struct RectView {
    pub position: Vec3,
    pub size: Vec2,
    /// The angle about the Z axis, in radians.
    pub rotation: Scalar,
    pub color: Color,
}

impl RectView {
    /// The vertex buffer: the four corners in the rectangle's colour.
    pub open spec fn vertices(self) -> Seq<Vertex> {
        rect_corners(self.size, self.color.packed())
    }

    /// The index buffer.
    pub open spec fn indices(self) -> Seq<u16> {
        rect_indices()
    }

    /// The draw of a rectangle: inside a transform scope of its own, move to
    /// the position on the near plane, turn, and submit the six indices.
    pub open spec fn submission(self) -> DrawCallView {
        DrawCallView {
            vertices: self.vertices(),
            indices: Some(self.indices()),
            commands: seq![
                RenderCommand::SetRenderState { capability: Capability::Texture2D, enabled: false },
                RenderCommand::MatrixMode(MatrixMode::Model),
                RenderCommand::PushTransform,
                RenderCommand::Translate(
                    Vec3 { x: self.position.x, y: self.position.y, z: Scalar::neg_one() },
                ),
                RenderCommand::RotateZ(self.rotation),
                RenderCommand::FlushCache,
                RenderCommand::Submit {
                    topology: Topology::Triangles,
                    format: VertexFormat::of_vertex(true),
                    count: 6,
                },
                RenderCommand::PopTransform,
            ],
        }
    }
}

impl View for Rect {
    type V = RectView;

    closed spec fn view(&self) -> RectView {
        RectView {
            position: self.position,
            size: self.size,
            rotation: self.rotation,
            color: self.color,
        }
    }
}

impl Rect {
    /// The stored buffers are those of the stored size and colour.
    #[verifier::type_invariant]
    spec fn buffers_current(self) -> bool {
        &&& self.vertices@ == self@.vertices()
        &&& self.indices@ == self@.indices()
    }

    /// The unturned rectangle of extent `size` and colour `color` at
    /// `position`.
    pub fn new(position: Vec3, size: Vec2, color: Color) -> (rect: Rect)
        ensures
            rect@ == (RectView { position, size, rotation: Scalar::zero(), color }),
            rect@.vertices() == rect_corners(size, color.packed()),
            rect@.indices() == rect_indices(),
    {
        let vertices = Rect::generate_vertices(size, color);
        let indices: [u16; 6] = [0, 1, 2, 2, 1, 3];
        assert(indices@ =~= rect_indices());
        Rect { vertices, indices, position, rotation: Scalar { bits: ZERO_BITS }, size, color }
    }

    /// Builds the vertex buffer of a rectangle of extent `size` and colour
    /// `color`.
    pub fn generate_vertices(size: Vec2, color: Color) -> (vertices: [Vertex; 4])
        ensures
            vertices@ == rect_corners(size, color.packed()),
    {
        let packed = color.as_abgr();
        let zero = Scalar { bits: ZERO_BITS };
        let vertices: [Vertex; 4] = [
            Vertex::flat(packed, zero, zero),
            Vertex::flat(packed, size.x, zero),
            Vertex::flat(packed, zero, size.y),
            Vertex::flat(packed, size.x, size.y),
        ];
        assert(vertices@ =~= rect_corners(size, color.packed()));
        vertices
    }

    /// The draw of a rectangle leaves the selected matrix to the draws
    /// around it as it found it.
    pub proof fn law_draw_keeps_transform(rect: Rect)
        ensures
            rect@.submission().keeps_transform(),
    {
        assert(rect@.submission().scoped_between(2, 7));
    }

    /// Reading the rotation of a rectangle gives the angle that was set
    /// last, bit for bit: `after` is `before` turned to `angle`.
    pub proof fn law_rotation_round_trip(before: Rect, after: Rect, angle: Scalar)
        requires
            after@ == (RectView { rotation: angle, ..before@ }),
        ensures
            property(after.rotation()) == Ok::<Scalar, ShapeError>(angle),
            after@.vertices() == before@.vertices(),
            after@.indices() == before@.indices(),
    {
    }

    /// A resized rectangle reports the new size, and its buffer holds the
    /// four corners of the new size in the colour it had: `after` is
    /// `before` resized to `new_size`.
    pub proof fn law_resize_rebuilds(before: Rect, after: Rect, new_size: Vec2)
        requires
            after@ == (RectView { size: new_size, ..before@ }),
        ensures
            property(after.size()) == Ok::<Vec2, ShapeError>(new_size),
            after@.vertices() == rect_corners(new_size, before@.color.packed()),
            after@.vertices().len() == 4,
            before@.vertices().len() == 4,
            after@.indices() == before@.indices(),
    {
    }

    /// The vertex buffer as it stands.
    pub fn vertices(&self) -> (vertices: [Vertex; 4])
        ensures
            vertices@ == self@.vertices(),
    {
        proof {
            use_type_invariant(self);
        }
        self.vertices
    }

    /// The index buffer.
    pub fn indices(&self) -> (indices: [u16; 6])
        ensures
            indices@ == self@.indices(),
    {
        proof {
            use_type_invariant(self);
        }
        self.indices
    }

    /// The colour of the rectangle.
    pub fn get_color(&self) -> (color: Color)
        ensures
            color == self@.color,
    {
        self.color
    }

    /// Recolours the rectangle: the vertex buffer is built anew, so that
    /// every vertex carries the new colour.
    pub fn set_color(&mut self, new_color: Color)
        ensures
            final(self)@ == (RectView { color: new_color, ..old(self)@ }),
    {
        proof {
            use_type_invariant(&*self);
        }
        let vertices = Rect::generate_vertices(self.size, new_color);
        *self = Rect {
            vertices,
            indices: self.indices,
            position: self.position,
            size: self.size,
            rotation: self.rotation,
            color: new_color,
        };
    }
}

impl Clone for Rect {
    fn clone(&self) -> (copy: Rect)
        ensures
            copy == *self,
    {
        proof {
            use_type_invariant(self);
        }
        Rect {
            vertices: self.vertices,
            indices: self.indices,
            position: self.position,
            size: self.size,
            rotation: self.rotation,
            color: self.color,
        }
    }
}

impl Drawable for Rect {
    open spec fn position(&self) -> Vec3 {
        self@.position
    }

    open spec fn size(&self) -> Option<Vec2> {
        Some(self@.size)
    }

    open spec fn scale(&self) -> Option<Vec2> {
        None
    }

    open spec fn rotation(&self) -> Option<Scalar> {
        Some(self@.rotation)
    }

    open spec fn submission(&self) -> DrawCallView {
        self@.submission()
    }

    fn draw(&mut self) -> (call: DrawCall) {
        proof {
            use_type_invariant(&*self);
        }
        let mut commands: Vec<RenderCommand> = Vec::new();
        commands.push(
            RenderCommand::SetRenderState { capability: Capability::Texture2D, enabled: false },
        );
        commands.push(RenderCommand::MatrixMode(MatrixMode::Model));
        commands.push(RenderCommand::PushTransform);
        commands.push(
            RenderCommand::Translate(
                Vec3 { x: self.position.x, y: self.position.y, z: Scalar { bits: NEG_ONE_BITS } },
            ),
        );
        commands.push(RenderCommand::RotateZ(self.rotation));
        commands.push(RenderCommand::FlushCache);
        commands.push(
            RenderCommand::Submit {
                topology: Topology::Triangles,
                format: VertexFormat::of_vertex(true),
                count: 6,
            },
        );
        commands.push(RenderCommand::PopTransform);
        let call = DrawCall {
            vertices: slice_to_vec(&self.vertices),
            indices: Some(slice_to_vec(&self.indices)),
            commands,
        };
        proof {
            assert(call@.commands =~= self@.submission().commands);
            assert(call@.commands[5] == RenderCommand::FlushCache);
        }
        call
    }

    fn get_size(&mut self) -> (size: Result<Vec2, ShapeError>) {
        Ok(self.size)
    }

    /// Resizes the rectangle: the vertex buffer is built anew from the new
    /// extent and the colour.
    fn set_size(&mut self, new_size: Vec2) -> (done: Result<(), ShapeError>)
        ensures
            done is Ok,
            final(self)@ == (RectView { size: new_size, ..old(self)@ }),
    {
        proof {
            use_type_invariant(&*self);
        }
        let vertices = Rect::generate_vertices(new_size, self.color);
        *self = Rect {
            vertices,
            indices: self.indices,
            position: self.position,
            size: new_size,
            rotation: self.rotation,
            color: self.color,
        };
        Ok(())
    }

    fn get_scale(&mut self) -> (scale: Result<Vec2, ShapeError>) {
        Err(ShapeError::Unsupported)
    }

    fn set_scale(&mut self, new_scale: Vec2) -> (done: Result<(), ShapeError>) {
        Err(ShapeError::Unsupported)
    }

    fn get_pos(&mut self) -> (position: Vec3) {
        self.position
    }

    /// Moves the rectangle. The buffers are left alone: the position is
    /// applied when the rectangle is drawn.
    fn set_pos(&mut self, new_position: Vec3)
        ensures
            final(self)@ == (RectView { position: new_position, ..old(self)@ }),
    {
        proof {
            use_type_invariant(&*self);
        }
        self.position = new_position;
    }

    fn get_rot(&mut self) -> (rotation: Result<Scalar, ShapeError>) {
        Ok(self.rotation)
    }

    /// Turns the rectangle to the angle `new_rotation`, in radians. The
    /// buffers are left alone: the rotation is applied when the rectangle is
    /// drawn.
    fn set_rot(&mut self, new_rotation: Scalar) -> (done: Result<(), ShapeError>)
        ensures
            done is Ok,
            final(self)@ == (RectView { rotation: new_rotation, ..old(self)@ }),
    {
        proof {
            use_type_invariant(&*self);
        }
        self.rotation = new_rotation;
        Ok(())
    }
}

} // verus!
