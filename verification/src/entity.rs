//! A moving rectangular object of the game: a paddle or the ball.

use vstd::prelude::*;
use crate::geometry::{Rectangle, RectangleModel, Vec2, Vec2Model};
use crate::units::{COORD_LIMIT, UNITS_PER_PIXEL};

verus! {

/// Extent of an entity in whole pixels, as its image gives it.
#[derive(Clone, Copy, Debug, PartialEq, Eq)]
pub struct Size {
    pub width: u32,
    pub height: u32,
}

impl Size {
    pub fn new(width: u32, height: u32) -> (s: Size)
        ensures
            s.width == width,
            s.height == height,
    {
        Size { width, height }
    }
}

/// What an [`Entity`] stands for. Lengths are in units, like the
/// coordinates.
pub struct EntityModel {
    /// Top-left corner.
    pub position: Vec2Model,
    /// Displacement per tick.
    pub velocity: Vec2Model,
    pub width: int,
    pub height: int,
}

impl EntityModel {
    /// An entity of the given size at the origin, not moving.
    pub open spec fn at_rest(size: Size) -> EntityModel {
        EntityModel {
            position: Vec2Model { x: 0, y: 0 },
            velocity: Vec2Model { x: 0, y: 0 },
            width: size.width * UNITS_PER_PIXEL,
            height: size.height * UNITS_PER_PIXEL,
        }
    }

    /// An entity has a positive extent in both directions.
    pub open spec fn wf(self) -> bool {
        self.width > 0 && self.height > 0
    }

    /// The rectangle that the entity covers.
    pub open spec fn bounds(self) -> RectangleModel {
        RectangleModel {
            x: self.position.x,
            y: self.position.y,
            width: self.width,
            height: self.height,
        }
    }

    /// The middle of the entity: its corner plus half its extent.
    pub open spec fn centre(self) -> Vec2Model {
        Vec2Model { x: self.position.x + self.width / 2, y: self.position.y + self.height / 2 }
    }

    /// The entity one tick later, left to itself: moved by its velocity.
    pub open spec fn advance(self) -> EntityModel {
        EntityModel { position: self.position.plus(self.velocity), ..self }
    }
}

/// A paddle or the ball: a rectangle of a fixed size with a position and a
/// velocity.
#[derive(Clone, Copy, Debug, PartialEq, Eq)]
pub struct Entity {
    /// Extent in pixels; fixed for the entity's lifetime.
    pub size: Size,
    /// Top-left corner, in units.
    pub position: Vec2,
    /// Displacement per tick, in units.
    pub velocity: Vec2,
}

impl View for Entity {
    type V = EntityModel;

    open spec fn view(&self) -> EntityModel {
        EntityModel {
            position: self.position@,
            velocity: self.velocity@,
            ..EntityModel::at_rest(self.size)
        }
    }
}

impl Entity {
    /// An entity is well formed when neither side of it is zero.
    pub open spec fn wf(&self) -> bool {
        self.size.width > 0 && self.size.height > 0
    }

    /// Whether every coordinate and speed of the entity lies within
    /// [`COORD_LIMIT`] of zero.
    pub open spec fn spec_in_range(&self) -> bool {
        &&& -COORD_LIMIT <= self.position.x <= COORD_LIMIT
        &&& -COORD_LIMIT <= self.position.y <= COORD_LIMIT
        &&& -COORD_LIMIT <= self.velocity.x <= COORD_LIMIT
        &&& -COORD_LIMIT <= self.velocity.y <= COORD_LIMIT
    }

    /// An entity at rest.
    pub fn new(size: Size, position: Vec2) -> (e: Entity)
        requires
            size.width > 0,
            size.height > 0,
        ensures
            e.wf(),
            e.size == size,
            e.position == position,
            e.velocity.x == 0,
            e.velocity.y == 0,
    {
        Entity { size, position, velocity: Vec2::zero() }
    }

    /// An entity in motion.
    pub fn with_velocity(size: Size, position: Vec2, velocity: Vec2) -> (e: Entity)
        requires
            size.width > 0,
            size.height > 0,
        ensures
            e.wf(),
            e.size == size,
            e.position == position,
            e.velocity == velocity,
    {
        Entity { size, position, velocity }
    }

    /// Tells whether the entity is within the range that
    /// [`crate::game::GameState::update`] asks for.
    #[verifier::when_used_as_spec(spec_in_range)]
    pub fn in_range(&self) -> (ok: bool)
        ensures
            ok == self.spec_in_range(),
    {
        -COORD_LIMIT <= self.position.x && self.position.x <= COORD_LIMIT
            && -COORD_LIMIT <= self.position.y && self.position.y <= COORD_LIMIT
            && -COORD_LIMIT <= self.velocity.x && self.velocity.x <= COORD_LIMIT
            && -COORD_LIMIT <= self.velocity.y && self.velocity.y <= COORD_LIMIT
    }

    /// Width in units.
    pub fn width(&self) -> (w: i64)
        ensures
            w == self@.width,
    {
        let pixels: i64 = self.size.width as i64;
        pixels * UNITS_PER_PIXEL
    }

    /// Height in units.
    pub fn height(&self) -> (h: i64)
        ensures
            h == self@.height,
    {
        let pixels: i64 = self.size.height as i64;
        pixels * UNITS_PER_PIXEL
    }

    /// The rectangle that the entity covers.
    pub fn bounds(&self) -> (r: Rectangle)
        ensures
            r@ == self@.bounds(),
    {
        Rectangle::new(self.position.x, self.position.y, self.width(), self.height())
    }

    /// The middle of the entity, which must be representable. A side of a
    /// whole number of pixels halves without remainder, so the centre is
    /// exact.
    pub fn centre(&self) -> (c: Vec2)
        requires
            self@.centre().x <= i64::MAX,
            self@.centre().y <= i64::MAX,
        ensures
            c@ == self@.centre(),
    {
        Vec2::new(self.position.x + self.width() / 2, self.position.y + self.height() / 2)
    }
}

} // verus!
