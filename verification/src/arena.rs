//! The playing field: its measures, its four walls, and how far the paddle
//! may travel between them.
//!
//! Lengths are in sub-units, speeds in world units per second, which is the
//! same number as sub-units per tick.

use crate::vector::{Transform, TransformView, Vec2, Vec2View, UNIT};
use vstd::prelude::*;

verus! {

/// Ticks of the simulation in one second.
pub const TICKS_PER_SECOND: u32 = 60;

/// Width of the paddle.
pub const PADDLE_WIDTH: i64 = 120 * UNIT;

/// Height of the paddle.
pub const PADDLE_HEIGHT: i64 = 20 * UNIT;

/// Speed of the paddle.
pub const PADDLE_SPEED: i64 = 500;

/// Height of the paddle's centre above the bottom wall.
pub const PADDLE_BOTTOM_OFFSET: i64 = 25 * UNIT;

/// Edge length of a projectile, the same on every axis.
pub const PROJECTILE_SIZE: i64 = 20 * UNIT;

/// Speed of a projectile.
pub const PROJECTILE_SPEED: i64 = 1000;

/// Ticks that a projectile lives: three seconds.
pub const PROJECTILE_LIFETIME: u32 = 3 * TICKS_PER_SECOND;

/// Horizontal part of the direction in which projectiles are fired.
pub const FIRE_DIRECTION_X: i64 = 0;

/// Vertical part of the direction in which projectiles are fired.
pub const FIRE_DIRECTION_Y: i64 = 1;

/// Horizontal position of the left wall's centre.
pub const LEFT_WALL: i64 = -600 * UNIT;

/// Horizontal position of the right wall's centre.
pub const RIGHT_WALL: i64 = 600 * UNIT;

/// Vertical position of the bottom wall's centre.
pub const BOTTOM_WALL: i64 = -300 * UNIT;

/// Vertical position of the top wall's centre.
pub const TOP_WALL: i64 = 300 * UNIT;

/// Thickness of each wall.
pub const WALL_THICKNESS: i64 = 10 * UNIT;

/// The paddle's leftmost place where nothing is kept free beside the walls.
pub const PADDLE_LEFT_BOUND: i64 = -540 * UNIT;

/// The paddle's rightmost place where nothing is kept free beside the walls.
pub const PADDLE_RIGHT_BOUND: i64 = 540 * UNIT;

/// One of the four walls that close the arena.
#[derive(Clone, Copy, Debug, PartialEq, Eq, Structural)]
pub enum WallLocation {
    Left,
    Right,
    Bottom,
    Top,
}

impl WallLocation {
    /// The centre of the wall: on its own axis at the wall's coordinate, on
    /// the other in the middle of the arena.
    pub open spec fn position_spec(self) -> Vec2View {
        match self {
            WallLocation::Left => Vec2View { x: LEFT_WALL as int, y: 0 },
            WallLocation::Right => Vec2View { x: RIGHT_WALL as int, y: 0 },
            WallLocation::Bottom => Vec2View { x: 0, y: BOTTOM_WALL as int },
            WallLocation::Top => Vec2View { x: 0, y: TOP_WALL as int },
        }
    }

    /// The extent of the wall: as thick as a wall across, and along the arena
    /// as long as the arena plus one thickness, so that the corners close.
    pub open spec fn size_spec(self) -> Vec2View {
        match self {
            WallLocation::Left | WallLocation::Right => Vec2View {
                x: WALL_THICKNESS as int,
                y: TOP_WALL - BOTTOM_WALL + WALL_THICKNESS,
            },
            WallLocation::Bottom | WallLocation::Top => Vec2View {
                x: RIGHT_WALL - LEFT_WALL + WALL_THICKNESS,
                y: WALL_THICKNESS as int,
            },
        }
    }

    /// The centre of the wall.
    pub fn position(&self) -> (p: Vec2)
        ensures
            p@ == self.position_spec(),
    {
        match self {
            WallLocation::Left => Vec2 { x: LEFT_WALL, y: 0 },
            WallLocation::Right => Vec2 { x: RIGHT_WALL, y: 0 },
            WallLocation::Bottom => Vec2 { x: 0, y: BOTTOM_WALL },
            WallLocation::Top => Vec2 { x: 0, y: TOP_WALL },
        }
    }

    /// The extent of the wall. Both of its measures are positive.
    pub fn size(&self) -> (s: Vec2)
        ensures
            s@ == self.size_spec(),
            s.x > 0,
            s.y > 0,
    {
        let arena_height: i64 = TOP_WALL - BOTTOM_WALL;
        let arena_width: i64 = RIGHT_WALL - LEFT_WALL;
        match self {
            WallLocation::Left | WallLocation::Right => Vec2 {
                x: WALL_THICKNESS,
                y: arena_height + WALL_THICKNESS,
            },
            WallLocation::Bottom | WallLocation::Top => Vec2 {
                x: arena_width + WALL_THICKNESS,
                y: WALL_THICKNESS,
            },
        }
    }
}

/// The box of the wall at `location`: centred at depth zero, one world unit
/// deep.
pub open spec fn wall_spec(location: WallLocation) -> TransformView {
    TransformView {
        translation: location.position_spec().extend(0),
        scale: location.size_spec().extend(UNIT as int),
    }
}

/// A wall: a body that never moves and that projectiles collide with.
#[derive(Clone, Copy, Debug, PartialEq, Eq, Structural)]
pub struct WallBundle {
    pub transform: Transform,
}

impl View for WallBundle {
    type V = TransformView;

    open spec fn view(&self) -> TransformView {
        self.transform@
    }
}

impl DeepView for WallBundle {
    type V = TransformView;

    open spec fn deep_view(&self) -> TransformView {
        self.transform@
    }
}

impl WallBundle {
    /// The wall at `location`.
    pub fn new(location: WallLocation) -> (wall: WallBundle)
        ensures
            wall@ == wall_spec(location),
    {
        WallBundle {
            transform: Transform {
                translation: location.position().extend(0),
                scale: location.size().extend(UNIT),
            },
        }
    }
}

/// The paddle's leftmost place: half the paddle's width right of the left
/// wall's centre, and further right by `wall_thickness` and by `padding`.
pub open spec fn left_bound_spec(wall_thickness: int, padding: int) -> int {
    LEFT_WALL + PADDLE_WIDTH / 2 + wall_thickness + padding
}

/// The paddle's rightmost place: half the paddle's width left of the right
/// wall's centre, and further left by `wall_thickness` and by `padding`.
pub open spec fn right_bound_spec(wall_thickness: int, padding: int) -> int {
    RIGHT_WALL - PADDLE_WIDTH / 2 - wall_thickness - padding
}

/// The stretch in which the paddle's centre may lie, ends included.
#[derive(Clone, Copy, Debug, PartialEq, Eq, Structural)]
pub struct PaddleBounds {
    pub left: i64,
    pub right: i64,
}

impl PaddleBounds {
    /// The stretch is not empty.
    pub open spec fn wf(self) -> bool {
        self.left <= self.right
    }

    /// The stretch that is left between the walls when `wall_thickness` and
    /// `padding` are kept free on either side, or `None` where nothing is
    /// left.
    pub fn new(wall_thickness: u32, padding: u32) -> (bounds: Option<PaddleBounds>)
        ensures
            bounds is Some <==> left_bound_spec(wall_thickness as int, padding as int)
                <= right_bound_spec(wall_thickness as int, padding as int),
            bounds matches Some(b) ==> {
                &&& b.wf()
                &&& b.left == left_bound_spec(wall_thickness as int, padding as int)
                &&& b.right == right_bound_spec(wall_thickness as int, padding as int)
            },
    {
        let inset: i64 = wall_thickness as i64 + padding as i64;
        let left: i64 = LEFT_WALL + PADDLE_WIDTH / 2 + inset;
        let right: i64 = RIGHT_WALL - PADDLE_WIDTH / 2 - inset;
        if left <= right {
            Some(PaddleBounds { left, right })
        } else {
            None
        }
    }
}

impl Default for PaddleBounds {
    /// The stretch between the walls with nothing kept free.
    fn default() -> (bounds: PaddleBounds)
        ensures
            bounds == (PaddleBounds { left: PADDLE_LEFT_BOUND, right: PADDLE_RIGHT_BOUND }),
            bounds.wf(),
            bounds.left == left_bound_spec(0, 0),
            bounds.right == right_bound_spec(0, 0),
    {
        PaddleBounds { left: PADDLE_LEFT_BOUND, right: PADDLE_RIGHT_BOUND }
    }
}

} // verus!
