//! Flat-coloured 2D primitives (rectangle, triangle, ellipse) for an
//! immediate-mode graphics backend.
//!
//! A shape owns its vertex buffer and its placement. Drawing a shape does not
//! touch the hardware: it yields a [`DrawCall`], the buffers and the ordered
//! backend commands, which the caller carries out.
//!
//! Coordinates and angles are single-precision numbers. The library never
//! computes with them; it holds each as its bit pattern (see [`Scalar`]).
//! Angles are in radians throughout, and the outline of an ellipse is handed
//! in as points.

pub mod backend;
pub mod color;
pub mod drawable;
pub mod ellipse;
pub mod geometry;
pub mod rect;
pub mod triangle;
pub mod vertex;

pub use backend::{Capability, DrawCall, MatrixMode, RenderCommand, Topology, VertexFormat};
pub use color::Color;
pub use drawable::{Drawable, ShapeError};
pub use ellipse::{Ellipse, ELLIPSE_VERTICES, STEPS};
pub use geometry::{Scalar, Vec2, Vec3, NEG_ONE_BITS, ZERO_BITS};
pub use rect::Rect;
pub use triangle::Triangle;
pub use vertex::{wire_words, Vertex, VERTEX_WORDS};
