//! What a shape asks of the rendering backend.
//!
//! The backend keeps a stack of model transforms, a set of render states and
//! a queue of submitted vertex arrays. The graphics processor reads the
//! submitted buffers from memory behind the processor's cache, so the cache
//! has to be written back between the last write to a buffer and its
//! submission.

use vstd::prelude::*;
use crate::geometry::{Scalar, Vec3};
use crate::vertex::Vertex;

verus! {

/// A render state that can be switched on and off.
#[derive(Clone, Copy, Debug, PartialEq, Eq, Structural)]
pub enum Capability {
    /// Texture mapping.
    Texture2D,
}

/// The matrix that transform commands act on.
#[derive(Clone, Copy, Debug, PartialEq, Eq, Structural)]
pub enum MatrixMode {
    Projection,
    View,
    Model,
    Texture,
}

/// How a run of vertices forms filled geometry.
#[derive(Clone, Copy, Debug, PartialEq, Eq, Structural)]
pub enum Topology {
    /// Every three vertices form a triangle.
    Triangles,
    /// The first vertex is shared by all triangles; every further pair of
    /// neighbours forms one with it.
    TriangleFan,
}

impl Topology {
    /// Whether `count` vertices form whole primitives of this topology.
    pub open spec fn admits(self, count: nat) -> bool {
        match self {
            Topology::Triangles => count % 3 == 0,
            Topology::TriangleFan => count >= 3,
        }
    }
}

/// The layout of a submitted array, as the backend is told it.
#[derive(Clone, Copy, Debug, PartialEq, Eq, Structural)]
pub struct VertexFormat {
    /// Texture coordinates are two 32-bit floating-point numbers.
    pub texture_32bitf: bool,
    /// The colour is one word of four 8-bit channels.
    pub color_8888: bool,
    /// The position is three 32-bit floating-point numbers.
    pub vertex_32bitf: bool,
    /// The array is read through 16-bit indices.
    pub index_16bit: bool,
    /// Vertices pass through the 3D transform.
    pub transform_3d: bool,
}

impl VertexFormat {
    /// The format that describes [`Vertex`], read through an index buffer
    /// or not.
    pub open spec fn spec_of_vertex(indexed: bool) -> VertexFormat {
        VertexFormat {
            texture_32bitf: true,
            color_8888: true,
            vertex_32bitf: true,
            index_16bit: indexed,
            transform_3d: true,
        }
    }

    /// The format that describes [`Vertex`], read through an index buffer
    /// or not.
    #[verifier::when_used_as_spec(spec_of_vertex)]
    pub fn of_vertex(indexed: bool) -> (format: VertexFormat)
        ensures
            format == VertexFormat::spec_of_vertex(indexed),
    {
        VertexFormat {
            texture_32bitf: true,
            color_8888: true,
            vertex_32bitf: true,
            index_16bit: indexed,
            transform_3d: true,
        }
    }
}

/// One call on the backend.
#[derive(Clone, Copy, Debug, PartialEq, Eq, Structural)]
pub enum RenderCommand {
    /// Switch a render state on or off.
    SetRenderState { capability: Capability, enabled: bool },
    /// Select the matrix that the following transform commands act on.
    MatrixMode(MatrixMode),
    /// Replace the selected matrix by the identity.
    LoadIdentity,
    /// Save the selected matrix on the transform stack.
    PushTransform,
    /// Restore the selected matrix from the transform stack.
    PopTransform,
    /// Translate the selected matrix.
    Translate(Vec3),
    /// Rotate the selected matrix about the X axis, by an angle in radians.
    RotateX(Scalar),
    /// Rotate the selected matrix about the Y axis, by an angle in radians.
    RotateY(Scalar),
    /// Rotate the selected matrix about the Z axis, by an angle in radians.
    RotateZ(Scalar),
    /// Write the processor's cache back to memory.
    FlushCache,
    /// Submit `count` vertices of the draw call's buffers.
    Submit { topology: Topology, format: VertexFormat, count: usize },
}

impl RenderCommand {
    /// Whether the command changes the selected matrix.
    pub open spec fn changes_transform(self) -> bool {
        ||| self is LoadIdentity
        ||| self is Translate
        ||| self is RotateX
        ||| self is RotateY
        ||| self is RotateZ
    }
}

/// A complete draw of one shape: its buffers, and the backend calls in the
/// order in which they are to be made.
#[derive(Debug, PartialEq, Eq)]
pub struct DrawCall {
    /// The vertex buffer that the submission reads.
    pub vertices: Vec<Vertex>,
    /// The index buffer, where the submission is indexed.
    pub indices: Option<Vec<u16>>,
    /// The backend calls, first to last.
    pub commands: Vec<RenderCommand>,
}

/// The contents of a [`DrawCall`].
pub struct DrawCallView {
    pub vertices: Seq<Vertex>,
    pub indices: Option<Seq<u16>>,
    pub commands: Seq<RenderCommand>,
}

impl View for DrawCall {
    type V = DrawCallView;

    open spec fn view(&self) -> DrawCallView {
        DrawCallView {
            vertices: self.vertices@,
            indices: match self.indices {
                Some(indices) => Some(indices@),
                None => None,
            },
            commands: self.commands@,
        }
    }
}

impl DrawCallView {
    /// How many vertices a submission of these buffers reads: one for each
    /// index, or each vertex once where there is no index buffer.
    pub open spec fn vertex_count(self) -> nat {
        match self.indices {
            Some(indices) => indices.len(),
            None => self.vertices.len(),
        }
    }

    /// Every index names a vertex of the vertex buffer.
    pub open spec fn indices_in_bounds(self) -> bool {
        match self.indices {
            Some(indices) => forall|i: int|
                0 <= i < indices.len() ==> (#[trigger] indices[i]) < self.vertices.len(),
            None => true,
        }
    }

    /// The command at `at` submits these buffers whole, in the format that
    /// describes them.
    pub open spec fn submits_buffers(self, at: int) -> bool {
        match self.commands[at] {
            RenderCommand::Submit { topology, format, count } => {
                &&& count == self.vertex_count()
                &&& format == VertexFormat::of_vertex(self.indices is Some)
                &&& topology.admits(count as nat)
            },
            _ => true,
        }
    }

    /// The cache is written back before the command at `at`.
    pub open spec fn flushed_before(self, at: int) -> bool {
        exists|earlier: int|
            0 <= earlier < at && #[trigger] self.commands[earlier] == RenderCommand::FlushCache
    }

    /// The commands open one transform scope at `push` and close it at
    /// `pop`, and change the selected matrix only in between.
    pub open spec fn scoped_between(self, push: int, pop: int) -> bool {
        &&& 0 <= push < pop < self.commands.len()
        &&& forall|at: int|
            0 <= at < self.commands.len() ==> {
                let command = #[trigger] self.commands[at];
                &&& command is PushTransform <==> at == push
                &&& command is PopTransform <==> at == pop
                &&& command.changes_transform() ==> push < at < pop
            }
    }

    /// The draw leaves the selected matrix as it found it: whatever it does
    /// to the matrix, it does inside one transform scope of its own.
    pub open spec fn keeps_transform(self) -> bool {
        exists|push: int, pop: int| #[trigger] self.scoped_between(push, pop)
    }

    /// The draw call can be handed to the backend as it stands: the indices
    /// stay inside the vertex buffer, and every submission reads the buffers
    /// whole, in their format, after a cache write-back.
    pub open spec fn well_formed(self) -> bool {
        &&& self.indices_in_bounds()
        &&& forall|at: int|
            0 <= at < self.commands.len() && #[trigger] self.commands[at] is Submit ==> {
                &&& self.submits_buffers(at)
                &&& self.flushed_before(at)
            }
    }
}

} // verus!
