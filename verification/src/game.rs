//! The whole game: its state between two ticks, and the tick that runs the
//! six steps in their order.

use crate::arena::{
    wall_spec, PaddleBounds, WallBundle, WallLocation, BOTTOM_WALL, PADDLE_BOTTOM_OFFSET,
    PADDLE_HEIGHT, PADDLE_LEFT_BOUND, PADDLE_RIGHT_BOUND, PADDLE_WIDTH,
};
use crate::components::{CollisionEvent, Controls, Projectile, ProjectileView};
use crate::systems::{
    aged, applied_velocity, check_for_collisions, launch, launched, lemma_contacts_positive_iff,
    move_player, moved_player, notices, play_collision_sound, spawned, step, struck,
    system_apply_velocity, system_lifetime, system_spawn_projectile, touches,
};
use crate::vector::{Transform, TransformView, Vec3, Vec3View};
use vstd::prelude::*;

verus! {

/// The largest coordinate, to either side, at which the game places a body,
/// and the largest speed at which one moves.
pub const WORLD_LIMIT: i64 = 0x100_0000_0000;

/// The coordinate lies in the world.
pub open spec fn in_world(coordinate: int) -> bool {
    -WORLD_LIMIT <= coordinate <= WORLD_LIMIT
}

/// A body that starts at `position` and moves at `speed` for `lifetime` ticks
/// is in the world when it starts and when it ends, and so all the time
/// between.
pub open spec fn flight_in_world(position: int, speed: int, lifetime: nat) -> bool {
    &&& in_world(position)
    &&& in_world(speed)
    &&& in_world(position + lifetime * step(speed))
}

impl ProjectileView {
    /// The projectile is in the world now and for the rest of its lifetime.
    pub open spec fn wf(self) -> bool {
        &&& flight_in_world(self.transform.translation.x, self.velocity.x, self.lifetime)
        &&& flight_in_world(self.transform.translation.y, self.velocity.y, self.lifetime)
    }
}

/// Whether a body that starts at `position` and moves at `speed` for
/// `lifetime` ticks stays in the world.
fn is_flight_in_world(position: i64, speed: i64, lifetime: u32) -> (inside: bool)
    ensures
        inside == flight_in_world(position as int, speed as int, lifetime as nat),
{
    if position < -WORLD_LIMIT || position > WORLD_LIMIT {
        return false;
    }
    if speed < -WORLD_LIMIT || speed > WORLD_LIMIT {
        return false;
    }
    let ticks: i128 = lifetime as i128;
    let pace: i128 = speed as i128;
    assert(-0x1_0000_0000 * 0x100_0000_0000 <= ticks * pace <= 0x1_0000_0000 * 0x100_0000_0000)
        by (nonlinear_arith)
        requires
            0 <= ticks <= 0xffff_ffff,
            -0x100_0000_0000 <= pace <= 0x100_0000_0000,
    ;
    let end: i128 = position as i128 + ticks * pace;
    -(WORLD_LIMIT as i128) <= end && end <= WORLD_LIMIT as i128
}

impl Projectile {
    /// Whether the projectile is in the world now and for the rest of its
    /// lifetime.
    pub fn is_valid(&self) -> (valid: bool)
        ensures
            valid == self@.wf(),
    {
        is_flight_in_world(self.transform.translation.x, self.velocity.0.x, self.lifetime.0)
            && is_flight_in_world(self.transform.translation.y, self.velocity.0.y, self.lifetime.0)
    }
}

/// The state of the game between two ticks, as mathematical values.
pub struct SpaceInvaderView {
    pub player: TransformView,
    pub projectile: Option<ProjectileView>,
    pub colliders: Seq<TransformView>,
    pub bounds: PaddleBounds,
}

impl SpaceInvaderView {
    /// The paddle at the same height and depth, with its centre at `x`.
    pub open spec fn paddle_at(self, x: int) -> Vec3View {
        Vec3View { x, ..self.player.translation }
    }

    /// The state can be ticked for ever: the paddle has room to move, a
    /// projectile fired from either end of that room stays in the world, and
    /// so does the one in flight.
    pub open spec fn wf(self) -> bool {
        &&& self.bounds.wf()
        &&& launched(self.paddle_at(self.bounds.left as int)).wf()
        &&& launched(self.paddle_at(self.bounds.right as int)).wf()
        &&& self.projectile matches Some(p) ==> p.wf()
    }

    /// The projectile as the collision check of the next tick finds it: after
    /// the paddle has moved, the spawner has run and velocity was applied.
    pub open spec fn flown(self, controls: Controls) -> Option<ProjectileView> {
        applied_velocity(
            spawned(self.projectile, controls, moved_player(self.player, controls, self.bounds)),
        )
    }

    /// The state one tick later: the paddle moved, then a projectile fired,
    /// then the projectile moved, tested against the colliders, and aged.
    /// Colliders and bounds never change.
    pub open spec fn ticked(self, controls: Controls) -> SpaceInvaderView {
        SpaceInvaderView {
            player: moved_player(self.player, controls, self.bounds),
            projectile: aged(struck(self.flown(controls), self.colliders)),
            colliders: self.colliders,
            bounds: self.bounds,
        }
    }

    /// The notices of collision that the next tick sends.
    pub open spec fn tick_notices(self, controls: Controls) -> nat {
        notices(self.flown(controls), self.colliders)
    }
}

/// The state of the game between two ticks: one paddle, at most one
/// projectile, the colliders, and the room in which the paddle moves.
#[derive(Clone, Debug, PartialEq, Eq)]
pub struct SpaceInvader {
    pub player: Transform,
    pub projectile: Option<Projectile>,
    pub colliders: Vec<WallBundle>,
    pub bounds: PaddleBounds,
}

impl View for SpaceInvader {
    type V = SpaceInvaderView;

    open spec fn view(&self) -> SpaceInvaderView {
        SpaceInvaderView {
            player: self.player@,
            projectile: self.projectile.deep_view(),
            colliders: self.colliders.deep_view(),
            bounds: self.bounds,
        }
    }
}

/// What a tick asks of the world outside the game.
#[derive(Clone, Copy, Debug, PartialEq, Eq, Structural)]
pub struct Effects {
    /// The notices of collision that were sent during the tick.
    pub notifications: usize,
    /// Whether the collision sound is to be played, once.
    pub play_sound: bool,
}

/// The game before its first tick: the paddle in the middle above the bottom
/// wall, nothing in flight, the four walls, and the whole width between the
/// side walls for the paddle.
pub open spec fn initial() -> SpaceInvaderView {
    SpaceInvaderView {
        player: TransformView {
            translation: Vec3View { x: 0, y: BOTTOM_WALL + PADDLE_BOTTOM_OFFSET, z: 0 },
            scale: Vec3View { x: PADDLE_WIDTH as int, y: PADDLE_HEIGHT as int, z: 0 },
        },
        projectile: None,
        colliders: seq![
            wall_spec(WallLocation::Left),
            wall_spec(WallLocation::Right),
            wall_spec(WallLocation::Bottom),
            wall_spec(WallLocation::Top),
        ],
        bounds: PaddleBounds { left: PADDLE_LEFT_BOUND, right: PADDLE_RIGHT_BOUND },
    }
}

/// The game before its first tick.
pub fn setup() -> (game: SpaceInvader)
    ensures
        game@ == initial(),
        game@.wf(),
{
    let mut colliders: Vec<WallBundle> = Vec::new();
    colliders.push(WallBundle::new(WallLocation::Left));
    colliders.push(WallBundle::new(WallLocation::Right));
    colliders.push(WallBundle::new(WallLocation::Bottom));
    colliders.push(WallBundle::new(WallLocation::Top));
    let game = SpaceInvader {
        player: Transform {
            translation: Vec3 { x: 0, y: BOTTOM_WALL + PADDLE_BOTTOM_OFFSET, z: 0 },
            scale: Vec3 { x: PADDLE_WIDTH, y: PADDLE_HEIGHT, z: 0 },
        },
        projectile: None,
        colliders,
        bounds: PaddleBounds::default(),
    };
    assert(game@.colliders =~= initial().colliders);
    game
}

/// A projectile that is in the world for the rest of its lifetime, and has
/// some lifetime left, is so again after one tick of flight.
pub proof fn lemma_flight_stays_in_world(p: ProjectileView)
    requires
        p.wf(),
        p.lifetime >= 1,
    ensures
        p.can_move(),
        p.moved().with_lifetime((p.lifetime - 1) as nat).wf(),
{
    lemma_flight_step(p.transform.translation.x, p.velocity.x, p.lifetime);
    lemma_flight_step(p.transform.translation.y, p.velocity.y, p.lifetime);
}

/// One axis of `lemma_flight_stays_in_world`.
proof fn lemma_flight_step(position: int, speed: int, lifetime: nat)
    requires
        flight_in_world(position, speed, lifetime),
        lifetime >= 1,
    ensures
        flight_in_world(position + step(speed), speed, (lifetime - 1) as nat),
{
    let s = step(speed);
    assert(s == speed);
    assert((lifetime - 1) * s + s == lifetime * s) by (nonlinear_arith);
    assert((s >= 0 ==> 0 <= s <= lifetime * s) && (s <= 0 ==> lifetime * s <= s <= 0))
        by (nonlinear_arith)
        requires
            lifetime >= 1,
    ;
}

/// A tick of a state that can be ticked gives one that can be ticked, with
/// the paddle within its bounds.
pub proof fn lemma_tick_keeps_wf(state: SpaceInvaderView, controls: Controls)
    requires
        state.wf(),
    ensures
        state.ticked(controls).wf(),
        state.bounds.left <= state.ticked(controls).player.translation.x <= state.bounds.right,
        spawned(
            state.projectile,
            controls,
            moved_player(state.player, controls, state.bounds),
        ) matches Some(p) ==> p.can_move(),
{
    let player = moved_player(state.player, controls, state.bounds);
    if let Some(p) = spawned(state.projectile, controls, player) {
        assert(p.wf());
        if p.lifetime >= 1 {
            lemma_flight_stays_in_world(p);
        }
    }
}

/// The state after one tick for each of `inputs`, in their order.
pub open spec fn played(state: SpaceInvaderView, inputs: Seq<Controls>) -> SpaceInvaderView
    decreases inputs.len(),
{
    if inputs.len() == 0 {
        state
    } else {
        played(state, inputs.drop_last()).ticked(inputs.last())
    }
}

/// However long the game is played, its state can be ticked, the colliders
/// and the bounds are those it began with, and once the paddle has moved it
/// lies within the bounds.
pub proof fn lemma_play_keeps_invariants(state: SpaceInvaderView, inputs: Seq<Controls>)
    requires
        state.wf(),
    ensures
        played(state, inputs).wf(),
        played(state, inputs).colliders == state.colliders,
        played(state, inputs).bounds == state.bounds,
        inputs.len() > 0 ==> state.bounds.left <= played(state, inputs).player.translation.x
            <= state.bounds.right,
    decreases inputs.len(),
{
    if inputs.len() > 0 {
        lemma_play_keeps_invariants(state, inputs.drop_last());
        lemma_tick_keeps_wf(played(state, inputs.drop_last()), inputs.last());
    }
}

/// A projectile that touches a collider after its move has its lifetime set
/// to zero and is gone when the tick ends; the tick sends a notice and asks
/// for the sound.
pub proof fn lemma_hit_ends_flight(state: SpaceInvaderView, controls: Controls, i: int)
    requires
        0 <= i < state.colliders.len(),
        state.flown(controls) matches Some(p) && touches(p.transform, state.colliders[i]),
    ensures
        struck(state.flown(controls), state.colliders) == Some(
            state.flown(controls)->0.with_lifetime(0),
        ),
        state.ticked(controls).projectile is None,
        state.tick_notices(controls) >= 1,
{
    lemma_contacts_positive_iff(state.flown(controls)->0.transform, state.colliders);
}

/// A projectile that touches no collider after its move, because it lies
/// apart from or inside each, is not destroyed by the collision check: the
/// tick sends no notice, and the projectile only ages.
pub proof fn lemma_clear_flight_goes_on(state: SpaceInvaderView, controls: Controls)
    requires
        state.flown(controls) matches Some(p) && forall|i: int|
            0 <= i < state.colliders.len() ==> !touches(p.transform, #[trigger] state.colliders[i]),
    ensures
        state.tick_notices(controls) == 0,
        state.ticked(controls).projectile == aged(state.flown(controls)),
{
    lemma_contacts_positive_iff(state.flown(controls)->0.transform, state.colliders);
}

impl SpaceInvader {
    /// Whether the state can be ticked.
    pub fn is_valid(&self) -> (valid: bool)
        ensures
            valid == self@.wf(),
    {
        if self.bounds.left > self.bounds.right {
            return false;
        }
        let mut from: Vec3 = self.player.translation;
        from.x = self.bounds.left;
        if !launch(from).is_valid() {
            return false;
        }
        from.x = self.bounds.right;
        if !launch(from).is_valid() {
            return false;
        }
        match &self.projectile {
            Some(p) => p.is_valid(),
            None => true,
        }
    }

    /// Runs one tick: the paddle moves, a projectile is fired if asked for and
    /// possible, the projectile flies one step, is tested against the
    /// colliders and aged, and the collision sound is asked for if it hit.
    pub fn tick(&mut self, controls: &Controls) -> (effects: Effects)
        requires
            old(self)@.wf(),
        ensures
            final(self)@ == old(self)@.ticked(*controls),
            final(self)@.wf(),
            final(self).bounds.left <= final(self).player.translation.x <= final(self).bounds.right,
            effects.notifications == old(self)@.tick_notices(*controls),
            effects.play_sound == (old(self)@.tick_notices(*controls) > 0),
    {
        let bounds: PaddleBounds = self.bounds;
        let mut collision_events: Vec<CollisionEvent> = Vec::new();

        move_player(controls, &bounds, &mut self.player);
        system_spawn_projectile(controls, &self.player, &mut self.projectile);
        proof {
            lemma_tick_keeps_wf(old(self)@, *controls);
        }
        system_apply_velocity(&mut self.projectile);
        check_for_collisions(&mut self.projectile, &self.colliders, &mut collision_events);
        system_lifetime(&mut self.projectile);
        let notifications: usize = collision_events.len();
        let play_sound: bool = play_collision_sound(&mut collision_events);
        Effects { notifications, play_sound }
    }
}

} // verus!
