//! What a body may carry besides its place: a velocity, a remaining lifetime.
//! Also the player's input during one tick, and the notice of a collision.

use crate::vector::{Transform, TransformView, Vec2, Vec2View};
use vstd::prelude::*;

verus! {

/// A velocity in world units per second.
#[derive(Clone, Copy, Debug, PartialEq, Eq, Structural)]
pub struct Velocity(pub Vec2);

impl View for Velocity {
    type V = Vec2View;

    open spec fn view(&self) -> Vec2View {
        self.0@
    }
}

/// The ticks that a body has left before it is removed.
#[derive(Clone, Copy, Debug, PartialEq, Eq, Structural)]
pub struct LifeTime(pub u32);

impl View for LifeTime {
    type V = nat;

    open spec fn view(&self) -> nat {
        self.0 as nat
    }
}

/// A projectile in flight, as mathematical integers.
pub struct ProjectileView {
    pub transform: TransformView,
    pub velocity: Vec2View,
    pub lifetime: nat,
}

/// A projectile in flight.
#[derive(Clone, Copy, Debug, PartialEq, Eq, Structural)]
pub struct Projectile {
    pub transform: Transform,
    pub velocity: Velocity,
    pub lifetime: LifeTime,
}

impl View for Projectile {
    type V = ProjectileView;

    open spec fn view(&self) -> ProjectileView {
        ProjectileView {
            transform: self.transform@,
            velocity: self.velocity@,
            lifetime: self.lifetime@,
        }
    }
}

impl DeepView for Projectile {
    type V = ProjectileView;

    open spec fn deep_view(&self) -> ProjectileView {
        self@
    }
}

/// The keys that are held down during one tick.
#[derive(Clone, Copy, Debug, PartialEq, Eq, Structural)]
pub struct Controls {
    pub left: bool,
    pub right: bool,
    pub fire: bool,
}

/// The notice that the projectile has hit something. It says nothing more.
#[derive(Clone, Copy, Debug, Default, PartialEq, Eq)]
pub struct CollisionEvent;

} // verus!
