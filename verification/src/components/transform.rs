//! Where a node is, how large, and how it is turned.

use vstd::prelude::*;
use crate::geometry::max_int;
use crate::tessellator::Vec2;

verus! {

/// Least extent of a node on either axis, in points. A smaller scale is
/// raised to it, so that no node is too small to be seen or hit.
pub const MIN_SIZE: i32 = 8;

/// A request to move, resize or turn a node.
#[derive(Clone, Copy, Debug, PartialEq, Eq)]
pub enum TransformMessage {
    /// Move by an offset.
    TransformXY([i32; 2]),
    /// Grow or shrink by an amount on each axis.
    TransformScale([i32; 2]),
    /// Move to a position.
    SetXY([i32; 2]),
    /// Resize to an extent.
    SetScale([i32; 2]),
    /// Turn to an angle.
    SetRotation(i32),
}

/// The transform of a node: its position and scale in points, and its
/// rotation in thousandths of a radian.
#[derive(Clone, Copy, Debug, PartialEq, Eq)]
pub struct TransformComponent {
    position: [i32; 3],
    scale: [i32; 3],
    rotation: i32,
}

/// What a transform holds.
pub struct TransformView {
    pub position: Vec2,
    pub scale: Vec2,
    pub rotation: i32,
}

impl TransformView {
    /// Whether the scale is at least `MIN_SIZE` on both axes.
    pub open spec fn wf(self) -> bool {
        self.scale.x >= MIN_SIZE && self.scale.y >= MIN_SIZE
    }

    /// Whether the transform can move by an offset: the new position is
    /// within the range of its coordinates.
    pub open spec fn can_move(self, offset: [i32; 2]) -> bool {
        &&& i32::MIN <= self.position.x + offset[0] <= i32::MAX
        &&& i32::MIN <= self.position.y + offset[1] <= i32::MAX
    }

    /// Whether the transform can grow by an amount: the new scale is
    /// within the range of its coordinates.
    pub open spec fn can_grow(self, amount: [i32; 2]) -> bool {
        &&& self.scale.x + amount[0] <= i32::MAX
        &&& self.scale.y + amount[1] <= i32::MAX
    }

    /// Whether a request can be carried out.
    pub open spec fn accepts(self, message: TransformMessage) -> bool {
        match message {
            TransformMessage::TransformXY(offset) => self.can_move(offset),
            TransformMessage::TransformScale(amount) => self.can_grow(amount),
            _ => true,
        }
    }

    /// The transform after a request.
    pub open spec fn after(self, message: TransformMessage) -> TransformView {
        match message {
            TransformMessage::TransformXY(offset) => TransformView {
                position: Vec2 {
                    x: (self.position.x + offset[0]) as i32,
                    y: (self.position.y + offset[1]) as i32,
                },
                ..self
            },
            TransformMessage::TransformScale(amount) => TransformView {
                scale: Vec2 {
                    x: max_int(self.scale.x + amount[0], MIN_SIZE as int) as i32,
                    y: max_int(self.scale.y + amount[1], MIN_SIZE as int) as i32,
                },
                ..self
            },
            TransformMessage::SetXY(position) => TransformView {
                position: Vec2 { x: position[0], y: position[1] },
                ..self
            },
            TransformMessage::SetScale(scale) => TransformView {
                scale: Vec2 {
                    x: max_int(scale[0] as int, MIN_SIZE as int) as i32,
                    y: max_int(scale[1] as int, MIN_SIZE as int) as i32,
                },
                ..self
            },
            TransformMessage::SetRotation(rotation) => TransformView { rotation, ..self },
        }
    }
}

impl View for TransformComponent {
    type V = TransformView;

    closed spec fn view(&self) -> TransformView {
        TransformView {
            position: Vec2 { x: self.position[0], y: self.position[1] },
            scale: Vec2 { x: self.scale[0], y: self.scale[1] },
            rotation: self.rotation,
        }
    }
}

fn at_least_min(v: i64) -> (r: i32)
    requires
        v <= i32::MAX,
    ensures
        r == max_int(v as int, MIN_SIZE as int),
{
    if v < MIN_SIZE as i64 {
        MIN_SIZE
    } else {
        v as i32
    }
}

impl TransformComponent {
    /// The transform of a node at the origin, of the least scale, unturned.
    pub fn new() -> (transform: Self)
        ensures
            transform@ == (TransformView {
                position: Vec2 { x: 0, y: 0 },
                scale: Vec2 { x: MIN_SIZE, y: MIN_SIZE },
                rotation: 0,
            }),
            transform@.wf(),
    {
        TransformComponent { position: [0, 0, 0], scale: [MIN_SIZE, MIN_SIZE, 0], rotation: 0 }
    }

    /// Moves by an offset.
    pub fn transform_xy(&mut self, position: &[i32; 2])
        requires
            old(self)@.can_move(*position),
        ensures
            final(self)@ == old(self)@.after(TransformMessage::TransformXY(*position)),
    {
        self.position = [self.position[0] + position[0], self.position[1] + position[1], 0];
    }

    /// Grows by an amount on each axis, and no smaller than `MIN_SIZE`.
    pub fn transform_scale(&mut self, scale: &[i32; 2])
        requires
            old(self)@.can_grow(*scale),
        ensures
            final(self)@ == old(self)@.after(TransformMessage::TransformScale(*scale)),
            final(self)@.wf(),
    {
        let x: i32 = at_least_min(self.scale[0] as i64 + scale[0] as i64);
        let y: i32 = at_least_min(self.scale[1] as i64 + scale[1] as i64);
        self.scale = [x, y, 0];
    }

    /// Moves to a position.
    pub fn set_xy(&mut self, position: &[i32; 2])
        ensures
            final(self)@ == old(self)@.after(TransformMessage::SetXY(*position)),
    {
        self.position = [position[0], position[1], 0];
    }

    /// Resizes to an extent, and no smaller than `MIN_SIZE`.
    pub fn set_scale(&mut self, scale: &[i32; 2])
        ensures
            final(self)@ == old(self)@.after(TransformMessage::SetScale(*scale)),
            final(self)@.wf(),
    {
        let x: i32 = at_least_min(scale[0] as i64);
        let y: i32 = at_least_min(scale[1] as i64);
        self.scale = [x, y, 0];
    }

    /// Turns to an angle.
    pub fn set_rotation(&mut self, rotation: i32)
        ensures
            final(self)@ == old(self)@.after(TransformMessage::SetRotation(rotation)),
    {
        self.rotation = rotation;
    }

    /// The position.
    pub fn get_xy(&self) -> (position: [i32; 2])
        ensures
            position[0] == self@.position.x,
            position[1] == self@.position.y,
    {
        [self.position[0], self.position[1]]
    }

    /// The scale.
    pub fn get_scale(&self) -> (scale: [i32; 2])
        ensures
            scale[0] == self@.scale.x,
            scale[1] == self@.scale.y,
    {
        [self.scale[0], self.scale[1]]
    }

    /// The rotation.
    pub fn get_rotation(&self) -> (rotation: i32)
        ensures
            rotation == self@.rotation,
    {
        self.rotation
    }

    /// Decides whether a request can be carried out.
    pub fn can_handle(&self, message: &TransformMessage) -> (ok: bool)
        ensures
            ok == self@.accepts(*message),
    {
        match message {
            TransformMessage::TransformXY(offset) => {
                let x: i64 = self.position[0] as i64 + offset[0] as i64;
                let y: i64 = self.position[1] as i64 + offset[1] as i64;
                i32::MIN as i64 <= x && x <= i32::MAX as i64 && i32::MIN as i64 <= y && y
                    <= i32::MAX as i64
            },
            TransformMessage::TransformScale(amount) => {
                let x: i64 = self.scale[0] as i64 + amount[0] as i64;
                let y: i64 = self.scale[1] as i64 + amount[1] as i64;
                x <= i32::MAX as i64 && y <= i32::MAX as i64
            },
            _ => true,
        }
    }

    /// Carries out a request.
    pub fn handle_message(&mut self, message: TransformMessage)
        requires
            old(self)@.accepts(message),
        ensures
            final(self)@ == old(self)@.after(message),
            old(self)@.wf() ==> final(self)@.wf(),
    {
        match message {
            TransformMessage::TransformXY(offset) => self.transform_xy(&offset),
            TransformMessage::TransformScale(amount) => self.transform_scale(&amount),
            TransformMessage::SetXY(position) => self.set_xy(&position),
            TransformMessage::SetScale(scale) => self.set_scale(&scale),
            TransformMessage::SetRotation(rotation) => self.set_rotation(rotation),
        }
    }
}

} // verus!
