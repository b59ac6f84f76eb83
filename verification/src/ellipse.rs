//! The ellipse, drawn as a fan of straight segments.

use vstd::prelude::*;
use vstd::slice::slice_to_vec;
use crate::backend::{
    Capability, DrawCall, DrawCallView, MatrixMode, RenderCommand, Topology, VertexFormat,
};
use crate::color::Color;
use crate::drawable::{Drawable, ShapeError};
use crate::geometry::{Scalar, Vec2, Vec3, NEG_ONE_BITS, ZERO_BITS};
use crate::vertex::Vertex;

verus! {

/// The number of equal angular segments that approximate the outline.
pub const STEPS: usize = 100;

/// The number of vertices of an ellipse: one for each segment, and one more
/// that closes the outline.
pub const ELLIPSE_VERTICES: usize = STEPS + 1;

/// The multiple of the angular step `2π / STEPS` at which vertex `index` of
/// the outline lies: the outline starts one step before the angle zero.
pub open spec fn outline_step(index: int) -> int {
    index - 1
}

/// Every vertex of `vertices` is untextured, lies on the near plane and
/// carries `packed`.
spec fn all_flat(vertices: Seq<Vertex>, packed: u32) -> bool {
    forall|i: int|
        0 <= i < vertices.len() ==> #[trigger] vertices[i] == Vertex::flat(
            packed,
            vertices[i].x,
            vertices[i].y,
        )
}

/// A filled ellipse.
///
/// The outline is fixed when the ellipse is made. A new size changes the
/// radius that the ellipse reports and leaves the outline as it is.
pub struct Ellipse {
    vertices: [Vertex; ELLIPSE_VERTICES],
    position: Vec3,
    radius: Vec2,
    color: Color,
}

/// What an [`Ellipse`] is: its vertex buffer follows from its outline and
/// its colour.
pub struct EllipseView {
    /// The points of the outline, [`ELLIPSE_VERTICES`] of them, relative to
    /// the centre.
    pub outline: Seq<Vec2>,
    pub position: Vec3,
    pub radius: Vec2,
    pub color: Color,
}

impl EllipseView {
    /// The vertex buffer: each point of the outline on the near plane, in
    /// the ellipse's colour.
    pub open spec fn vertices(self) -> Seq<Vertex> {
        Seq::new(
            self.outline.len(),
            |i: int| Vertex::flat(self.color.packed(), self.outline[i].x, self.outline[i].y),
        )
    }

    /// The draw of an ellipse: from the identity, move by the position on
    /// the near plane and submit the outline as one fan.
    pub open spec fn submission(self) -> DrawCallView {
        DrawCallView {
            vertices: self.vertices(),
            indices: None,
            commands: seq![
                RenderCommand::SetRenderState { capability: Capability::Texture2D, enabled: false },
                RenderCommand::MatrixMode(MatrixMode::Model),
                RenderCommand::LoadIdentity,
                RenderCommand::Translate(
                    Vec3 { x: self.position.x, y: self.position.y, z: Scalar::neg_one() },
                ),
                RenderCommand::FlushCache,
                RenderCommand::Submit {
                    topology: Topology::TriangleFan,
                    format: VertexFormat::of_vertex(false),
                    count: ELLIPSE_VERTICES,
                },
            ],
        }
    }
}

impl View for Ellipse {
    type V = EllipseView;

    closed spec fn view(&self) -> EllipseView {
        EllipseView {
            outline: Seq::new(
                ELLIPSE_VERTICES as nat,
                |i: int| Vec2 { x: self.vertices@[i].x, y: self.vertices@[i].y },
            ),
            position: self.position,
            radius: self.radius,
            color: self.color,
        }
    }
}

impl Ellipse {
    /// The stored buffer is that of the outline and the colour.
    #[verifier::type_invariant]
    spec fn buffer_current(self) -> bool {
        all_flat(self.vertices@, self.color.packed())
    }

    /// The invariant in terms of the view.
    proof fn lemma_buffer_current(self)
        requires
            self.buffer_current(),
        ensures
            self.vertices@ == self@.vertices(),
    {
        assert(self.vertices@ =~= self@.vertices());
    }

    /// An ellipse has one vertex for each step, and one more.
    pub proof fn lemma_vertex_count(self)
        ensures
            self@.outline.len() == STEPS + 1,
            self@.vertices().len() == STEPS + 1,
    {
    }

    /// The draw of an ellipse replaces the selected matrix: it starts from the
    /// identity and opens no transform scope, so a transform that the caller
    /// had set up is gone after it.
    pub proof fn law_draw_replaces_transform(ellipse: Ellipse)
        ensures
            ellipse@.submission().commands[2] == RenderCommand::LoadIdentity,
            !ellipse@.submission().keeps_transform(),
    {
        let call = ellipse@.submission();
        assert forall|push: int, pop: int| !#[trigger] call.scoped_between(push, pop) by {
            if call.scoped_between(push, pop) {
                assert(call.commands[push] is PushTransform);
            }
        }
    }

    /// The multiple of the angular step `2π / STEPS` at which vertex `index`
    /// of an outline lies, for each of the [`ELLIPSE_VERTICES`] vertices.
    ///
    /// Point `i` of an outline of radii `(rx, ry)` is
    /// `(rx · sin(step · 2π / STEPS), ry · cos(step · 2π / STEPS))`.
    pub fn angle_step(index: usize) -> (step: Option<i32>)
        ensures
            index < ELLIPSE_VERTICES ==> step == Some(outline_step(index as int) as i32),
            index >= ELLIPSE_VERTICES ==> step is None,
    {
        if index < ELLIPSE_VERTICES {
            Some(index as i32 - 1)
        } else {
            None
        }
    }

    /// The ellipse around `center` with the outline `outline`, in the colour
    /// `color`. `radius` is the size that the ellipse reports; the outline
    /// is taken as given, point `i` for vertex `i` (see
    /// [`Ellipse::angle_step`]).
    pub fn new(
        center: Vec3,
        radius: Vec2,
        color: Color,
        outline: &[Vec2; ELLIPSE_VERTICES],
    ) -> (ellipse: Ellipse)
        ensures
            ellipse@ == (EllipseView {
                outline: outline@,
                position: center,
                radius,
                color,
            }),
            ellipse@.vertices().len() == STEPS + 1,
            forall|i: int|
                0 <= i <= STEPS ==> #[trigger] ellipse@.vertices()[i] == Vertex::flat(
                    color.packed(),
                    outline@[i].x,
                    outline@[i].y,
                ),
    {
        let packed = color.as_abgr();
        let zero = Scalar { bits: ZERO_BITS };
        let mut vertices: [Vertex; ELLIPSE_VERTICES] = [Vertex::flat(packed, zero, zero);
            ELLIPSE_VERTICES];
        let mut i: usize = 0;
        while i < ELLIPSE_VERTICES
            invariant
                i <= ELLIPSE_VERTICES,
                packed == color.packed(),
                forall|j: int|
                    0 <= j < i ==> #[trigger] vertices@[j] == Vertex::flat(
                        packed,
                        outline@[j].x,
                        outline@[j].y,
                    ),
            decreases ELLIPSE_VERTICES - i,
        {
            vertices[i] = Vertex::flat(packed, outline[i].x, outline[i].y);
            i = i + 1;
        }
        assert(all_flat(vertices@, color.packed()));
        let ellipse = Ellipse {
            vertices,
            radius,
            position: Vec3::new(center.x, center.y, center.z),
            color,
        };
        assert(ellipse@.outline =~= outline@);
        ellipse
    }

    /// The vertex buffer as it stands.
    pub fn vertices(&self) -> (vertices: [Vertex; ELLIPSE_VERTICES])
        ensures
            vertices@ == self@.vertices(),
    {
        proof {
            use_type_invariant(self);
            self.lemma_buffer_current();
        }
        self.vertices
    }

    /// The colour that the ellipse was made with.
    pub fn get_color(&self) -> (color: Color)
        ensures
            color == self@.color,
    {
        self.color
    }
}

impl Clone for Ellipse {
    fn clone(&self) -> (copy: Ellipse)
        ensures
            copy == *self,
    {
        proof {
            use_type_invariant(self);
        }
        Ellipse {
            vertices: self.vertices,
            position: self.position,
            radius: self.radius,
            color: self.color,
        }
    }
}

impl Drawable for Ellipse {
    open spec fn position(&self) -> Vec3 {
        self@.position
    }

    open spec fn size(&self) -> Option<Vec2> {
        Some(self@.radius)
    }

    open spec fn scale(&self) -> Option<Vec2> {
        None
    }

    open spec fn rotation(&self) -> Option<Scalar> {
        None
    }

    open spec fn submission(&self) -> DrawCallView {
        self@.submission()
    }

    fn draw(&mut self) -> (call: DrawCall) {
        proof {
            use_type_invariant(&*self);
            self.lemma_buffer_current();
        }
        let mut commands: Vec<RenderCommand> = Vec::new();
        commands.push(
            RenderCommand::SetRenderState { capability: Capability::Texture2D, enabled: false },
        );
        commands.push(RenderCommand::MatrixMode(MatrixMode::Model));
        commands.push(RenderCommand::LoadIdentity);
        commands.push(
            RenderCommand::Translate(
                Vec3 { x: self.position.x, y: self.position.y, z: Scalar { bits: NEG_ONE_BITS } },
            ),
        );
        commands.push(RenderCommand::FlushCache);
        commands.push(
            RenderCommand::Submit {
                topology: Topology::TriangleFan,
                format: VertexFormat::of_vertex(false),
                count: ELLIPSE_VERTICES,
            },
        );
        let call = DrawCall { vertices: slice_to_vec(&self.vertices), indices: None, commands };
        proof {
            assert(call@.commands =~= self@.submission().commands);
            assert(call@.commands[4] == RenderCommand::FlushCache);
        }
        call
    }

    /// The radii of the ellipse.
    fn get_size(&mut self) -> (size: Result<Vec2, ShapeError>) {
        Ok(self.radius)
    }

    /// Records new radii. The outline is left as it is.
    fn set_size(&mut self, new_size: Vec2) -> (done: Result<(), ShapeError>)
        ensures
            done is Ok,
            final(self)@ == (EllipseView { radius: new_size, ..old(self)@ }),
    {
        proof {
            use_type_invariant(&*self);
        }
        self.radius = new_size;
        Ok(())
    }

    fn get_scale(&mut self) -> (scale: Result<Vec2, ShapeError>) {
        Err(ShapeError::Unsupported)
    }

    fn set_scale(&mut self, new_scale: Vec2) -> (done: Result<(), ShapeError>) {
        Err(ShapeError::Unsupported)
    }

    fn get_pos(&mut self) -> (position: Vec3) {
        self.position
    }

    /// Moves the ellipse. The outline is left alone: the position is applied
    /// when the ellipse is drawn.
    fn set_pos(&mut self, new_position: Vec3)
        ensures
            final(self)@ == (EllipseView { position: new_position, ..old(self)@ }),
    {
        proof {
            use_type_invariant(&*self);
        }
        self.position = new_position;
    }

    fn get_rot(&mut self) -> (rotation: Result<Scalar, ShapeError>) {
        Err(ShapeError::Unsupported)
    }

    fn set_rot(&mut self, new_rotation: Scalar) -> (done: Result<(), ShapeError>) {
        Err(ShapeError::Unsupported)
    }
}

} // verus!
