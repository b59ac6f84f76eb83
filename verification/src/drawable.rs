//! What every shape can be asked to do.

use vstd::prelude::*;
use crate::backend::{DrawCall, DrawCallView};
use crate::geometry::{Scalar, Vec2, Vec3};

verus! {

/// Why a shape did not do what it was asked.
#[derive(Clone, Copy, Debug, PartialEq, Eq, Structural)]
pub enum ShapeError {
    /// The shape has no such property.
    Unsupported,
}

/// The answer to a query for a property that a shape may lack.
pub open spec fn property<T>(value: Option<T>) -> Result<T, ShapeError> {
    match value {
        Some(value) => Ok(value),
        None => Err(ShapeError::Unsupported),
    }
}

/// Two draws of one shape, with nothing done to it in between, hand the
/// backend the same: the first draw found `shape` and left `untouched`.
pub proof fn law_draw_repeatable<D: Drawable>(
    shape: D,
    untouched: D,
    first: DrawCallView,
    second: DrawCallView,
)
    requires
        untouched == shape,
        first == shape.submission(),
        second == untouched.submission(),
    ensures
        first == second,
{
}

/// A shape that can be placed, queried and drawn.
///
/// Every shape has a position. A size, a scale and a rotation are
/// properties that a kind of shape either has or lacks for good: a query or
/// an update of a property that the shape lacks fails with
/// [`ShapeError::Unsupported`] and changes nothing.
pub trait Drawable: Sized {
    /// Where the shape is placed.
    spec fn position(&self) -> Vec3;

    /// The extent of the shape, if it has one.
    spec fn size(&self) -> Option<Vec2>;

    /// The scale of the shape, if it has one.
    spec fn scale(&self) -> Option<Vec2>;

    /// The rotation of the shape about the Z axis in radians, if it has one.
    spec fn rotation(&self) -> Option<Scalar>;

    /// What a draw of the shape hands to the backend.
    spec fn submission(&self) -> DrawCallView;

    /// Yields the draw call of the shape as it stands. The shape is left as
    /// it was, and the draw call depends on nothing but the shape: two draws
    /// in a row yield the same.
    fn draw(&mut self) -> (call: DrawCall)
        ensures
            *final(self) == *old(self),
            call@ == old(self).submission(),
            call@.well_formed(),
    ;

    /// The extent of the shape, if it has one.
    fn get_size(&mut self) -> (size: Result<Vec2, ShapeError>)
        ensures
            *final(self) == *old(self),
            size == property(old(self).size()),
    ;

    /// Gives the shape a new extent, if it has one.
    fn set_size(&mut self, new_size: Vec2) -> (done: Result<(), ShapeError>)
        ensures
            done == property(if old(self).size() is Some { Some(()) } else { None }),
            done is Ok ==> final(self).size() == Some(new_size),
            done is Err ==> *final(self) == *old(self),
            final(self).position() == old(self).position(),
            final(self).scale() == old(self).scale(),
            final(self).rotation() == old(self).rotation(),
    ;

    /// The scale of the shape, if it has one.
    fn get_scale(&mut self) -> (scale: Result<Vec2, ShapeError>)
        ensures
            *final(self) == *old(self),
            scale == property(old(self).scale()),
    ;

    /// Gives the shape a new scale, if it has one.
    fn set_scale(&mut self, new_scale: Vec2) -> (done: Result<(), ShapeError>)
        ensures
            done == property(if old(self).scale() is Some { Some(()) } else { None }),
            done is Ok ==> final(self).scale() == Some(new_scale),
            done is Err ==> *final(self) == *old(self),
            final(self).position() == old(self).position(),
            final(self).size() == old(self).size(),
            final(self).rotation() == old(self).rotation(),
    ;

    /// Where the shape is placed.
    fn get_pos(&mut self) -> (position: Vec3)
        ensures
            *final(self) == *old(self),
            position == old(self).position(),
    ;

    /// Moves the shape. Only the placement changes: the buffers stay as
    /// they are, and the position is applied when the shape is drawn.
    fn set_pos(&mut self, new_position: Vec3)
        ensures
            final(self).position() == new_position,
            final(self).size() == old(self).size(),
            final(self).scale() == old(self).scale(),
            final(self).rotation() == old(self).rotation(),
            final(self).submission().vertices == old(self).submission().vertices,
            final(self).submission().indices == old(self).submission().indices,
    ;

    /// The rotation of the shape about the Z axis in radians, if it has
    /// one.
    fn get_rot(&mut self) -> (rotation: Result<Scalar, ShapeError>)
        ensures
            *final(self) == *old(self),
            rotation == property(old(self).rotation()),
    ;

    /// Turns the shape about the Z axis to the angle `new_rotation`, in
    /// radians, if it can be turned. Only the placement changes: the buffers
    /// stay as they are, and the rotation is applied when the shape is drawn.
    fn set_rot(&mut self, new_rotation: Scalar) -> (done: Result<(), ShapeError>)
        ensures
            done == property(if old(self).rotation() is Some { Some(()) } else { None }),
            done is Ok ==> final(self).rotation() == Some(new_rotation),
            done is Err ==> *final(self) == *old(self),
            final(self).position() == old(self).position(),
            final(self).size() == old(self).size(),
            final(self).scale() == old(self).scale(),
            final(self).submission().vertices == old(self).submission().vertices,
            final(self).submission().indices == old(self).submission().indices,
    ;
}

} // verus!
