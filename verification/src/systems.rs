//! The six steps of a tick, each on the parts of the game that it touches.
//!
//! A step that works on "every projectile" takes the one slot in which a
//! projectile may be: the game never holds two.

use crate::arena::{
    PaddleBounds, WallBundle, FIRE_DIRECTION_X, FIRE_DIRECTION_Y, PADDLE_SPEED, PROJECTILE_LIFETIME,
    PROJECTILE_SIZE, PROJECTILE_SPEED, TICKS_PER_SECOND,
};
use crate::collide::{collide, collide_spec, lemma_enclosed_is_inside, span};
use crate::components::{CollisionEvent, Controls, LifeTime, Projectile, ProjectileView, Velocity};
use crate::vector::{Transform, TransformView, Vec2, Vec2View, Vec3, Vec3View, UNIT};
use vstd::prelude::*;

verus! {

/// The way that a body moving at `speed` world units per second covers in
/// one tick, in sub-units: the speed times the length of a tick.
pub open spec fn step(speed: int) -> int {
    speed * UNIT / (TICKS_PER_SECOND as int)
}

/// `value`, or the nearer end of `low ..= high` where it lies outside.
pub open spec fn clamp(value: int, low: int, high: int) -> int {
    if value < low {
        low
    } else if value > high {
        high
    } else {
        value
    }
}

/// The direction that the keys ask for: -1 for left, 1 for right, 0 where
/// both or neither are held.
pub open spec fn direction(controls: Controls) -> int {
    (if controls.right { 1int } else { 0int }) - (if controls.left { 1int } else { 0int })
}

/// The paddle after one tick: moved along the x axis by one step in the
/// direction of the keys, and no further than the bounds.
pub open spec fn moved_player(player: TransformView, controls: Controls, bounds: PaddleBounds) -> TransformView {
    TransformView {
        translation: Vec3View {
            x: clamp(
                player.translation.x + direction(controls) * step(PADDLE_SPEED as int),
                bounds.left as int,
                bounds.right as int,
            ),
            ..player.translation
        },
        ..player
    }
}

/// Moves the paddle by one step in the direction of the keys, and keeps it
/// within `bounds`, wherever it was before.
pub fn move_player(controls: &Controls, bounds: &PaddleBounds, player: &mut Transform)
    requires
        bounds.wf(),
    ensures
        final(player)@ == moved_player(old(player)@, *controls, *bounds),
        bounds.left <= final(player).translation.x <= bounds.right,
{
    let mut direction: i128 = 0;
    if controls.left {
        direction = direction - 1;
    }
    if controls.right {
        direction = direction + 1;
    }
    let new_player_position: i128 = player.translation.x as i128 + direction * (PADDLE_SPEED as i128);
    let left_bound: i128 = bounds.left as i128;
    let right_bound: i128 = bounds.right as i128;
    let clamped: i128 = if new_player_position < left_bound {
        left_bound
    } else if new_player_position > right_bound {
        right_bound
    } else {
        new_player_position
    };
    player.translation.x = clamped as i64;
}

/// Whatever the keys and wherever the paddle was, after its move it lies
/// within the bounds, ends included.
pub proof fn lemma_paddle_stays_in_bounds(player: TransformView, controls: Controls, bounds: PaddleBounds)
    requires
        bounds.wf(),
    ensures
        bounds.left <= moved_player(player, controls, bounds).translation.x <= bounds.right,
{
}

/// The velocity of a projectile that has just been fired: the firing
/// direction, which has length one, stretched to the projectile speed.
pub open spec fn launch_velocity() -> Vec2View {
    Vec2View { x: FIRE_DIRECTION_X as int, y: FIRE_DIRECTION_Y as int }.scaled(PROJECTILE_SPEED as int)
}

/// The projectile that is fired from `from`.
pub open spec fn launched(from: Vec3View) -> ProjectileView {
    ProjectileView {
        transform: TransformView {
            translation: from,
            scale: Vec3View {
                x: PROJECTILE_SIZE as int,
                y: PROJECTILE_SIZE as int,
                z: PROJECTILE_SIZE as int,
            },
        },
        velocity: launch_velocity(),
        lifetime: PROJECTILE_LIFETIME as nat,
    }
}

/// The projectile that is fired from `from`.
pub fn launch(from: Vec3) -> (projectile: Projectile)
    ensures
        projectile@ == launched(from@),
{
    Projectile {
        transform: Transform {
            translation: from,
            scale: Vec3 { x: PROJECTILE_SIZE, y: PROJECTILE_SIZE, z: PROJECTILE_SIZE },
        },
        velocity: Velocity(
            Vec2 { x: FIRE_DIRECTION_X * PROJECTILE_SPEED, y: FIRE_DIRECTION_Y * PROJECTILE_SPEED },
        ),
        lifetime: LifeTime(PROJECTILE_LIFETIME),
    }
}

/// The slot after the spawner has run: a new projectile at the paddle's place
/// where the slot was empty and the fire key is held, the slot as it was
/// otherwise.
pub open spec fn spawned(slot: Option<ProjectileView>, controls: Controls, player: TransformView) -> Option<
    ProjectileView,
> {
    if slot is None && controls.fire {
        Some(launched(player.translation))
    } else {
        slot
    }
}

/// Fires a projectile from the paddle's place if the fire key is held and
/// none is in flight.
pub fn system_spawn_projectile(
    controls: &Controls,
    player: &Transform,
    projectile: &mut Option<Projectile>,
)
    ensures
        final(projectile).deep_view() == spawned(old(projectile).deep_view(), *controls, player@),
{
    if projectile.is_none() && controls.fire {
        *projectile = Some(launch(player.translation));
    }
}

/// Firing with the slot empty puts one projectile there, with the full
/// lifetime of three seconds and a velocity as large as the projectile speed.
/// Firing again, from wherever the paddle is then, leaves that projectile as
/// it is and adds none.
pub proof fn lemma_fire_once(player: TransformView, first: Controls, again: Controls, later: TransformView)
    requires
        first.fire,
    ensures
        spawned(None, first, player) == Some(launched(player.translation)),
        launched(player.translation).lifetime == 3 * TICKS_PER_SECOND,
        launched(player.translation).velocity.length_squared() == PROJECTILE_SPEED * PROJECTILE_SPEED,
        spawned(spawned(None, first, player), again, later) == spawned(None, first, player),
{
    let velocity = launched(player.translation).velocity;
    assert(velocity.x == 0 && velocity.y == PROJECTILE_SPEED);
    assert(velocity.x * velocity.x == 0);
}

impl ProjectileView {
    /// The place one tick ahead can be written down in sub-units.
    pub open spec fn can_move(self) -> bool {
        &&& i64::MIN <= self.transform.translation.x + step(self.velocity.x) <= i64::MAX
        &&& i64::MIN <= self.transform.translation.y + step(self.velocity.y) <= i64::MAX
    }

    /// The projectile one tick ahead: moved by one step of its velocity on
    /// each axis of the plane.
    pub open spec fn moved(self) -> ProjectileView {
        ProjectileView {
            transform: TransformView {
                translation: Vec3View {
                    x: self.transform.translation.x + step(self.velocity.x),
                    y: self.transform.translation.y + step(self.velocity.y),
                    z: self.transform.translation.z,
                },
                ..self.transform
            },
            ..self
        }
    }

    /// The projectile with its lifetime set to `lifetime`.
    pub open spec fn with_lifetime(self, lifetime: nat) -> ProjectileView {
        ProjectileView { lifetime, ..self }
    }
}

impl Projectile {
    /// Whether the place one tick ahead can be written down in sub-units.
    pub fn can_move(&self) -> (able: bool)
        ensures
            able == self@.can_move(),
    {
        self.transform.translation.x.checked_add(self.velocity.0.x).is_some()
            && self.transform.translation.y.checked_add(self.velocity.0.y).is_some()
    }
}

/// The slot after every projectile in it has moved by one step.
pub open spec fn applied_velocity(slot: Option<ProjectileView>) -> Option<ProjectileView> {
    match slot {
        Some(p) => Some(p.moved()),
        None => None,
    }
}

/// Moves the projectile, if there is one, by one step of its velocity.
pub fn system_apply_velocity(projectile: &mut Option<Projectile>)
    requires
        old(projectile).deep_view() matches Some(p) ==> p.can_move(),
    ensures
        final(projectile).deep_view() == applied_velocity(old(projectile).deep_view()),
{
    match *projectile {
        Some(p) => {
            let mut moved: Projectile = p;
            moved.transform.translation.x = p.transform.translation.x + p.velocity.0.x;
            moved.transform.translation.y = p.transform.translation.y + p.velocity.0.y;
            *projectile = Some(moved);
        },
        None => {},
    }
}

/// One tick moves a projectile by its velocity times the length of a tick,
/// on each axis of the plane by itself and without rounding: as many steps as
/// a second has ticks add up to the velocity. Nothing else of it changes.
pub proof fn lemma_velocity_step(p: ProjectileView)
    ensures
        p.moved().transform.translation.x == p.transform.translation.x + step(p.velocity.x),
        p.moved().transform.translation.y == p.transform.translation.y + step(p.velocity.y),
        step(p.velocity.x) * TICKS_PER_SECOND == p.velocity.x * UNIT,
        step(p.velocity.y) * TICKS_PER_SECOND == p.velocity.y * UNIT,
        p.moved().transform.translation.z == p.transform.translation.z,
        p.moved().transform.scale == p.transform.scale,
        p.moved().velocity == p.velocity,
        p.moved().lifetime == p.lifetime,
{
}

/// The slot after one tick of ageing: a projectile loses one tick of its
/// lifetime, and leaves the slot if nothing is left of it then.
pub open spec fn aged(slot: Option<ProjectileView>) -> Option<ProjectileView> {
    match slot {
        Some(p) => if p.lifetime - 1 <= 0 {
            None
        } else {
            Some(p.with_lifetime((p.lifetime - 1) as nat))
        },
        None => None,
    }
}

/// Takes one tick off the projectile's lifetime, and removes the projectile
/// if nothing is left of it.
pub fn system_lifetime(projectile: &mut Option<Projectile>)
    ensures
        final(projectile).deep_view() == aged(old(projectile).deep_view()),
{
    match *projectile {
        Some(p) => {
            if p.lifetime.0 <= 1 {
                *projectile = None;
            } else {
                let mut older: Projectile = p;
                older.lifetime = LifeTime(p.lifetime.0 - 1);
                *projectile = Some(older);
            }
        },
        None => {},
    }
}

/// The slot after `ticks` ticks of ageing.
pub open spec fn aged_by(slot: Option<ProjectileView>, ticks: nat) -> Option<ProjectileView>
    decreases ticks,
{
    if ticks == 0 {
        slot
    } else {
        aged(aged_by(slot, (ticks - 1) as nat))
    }
}

/// A projectile that nothing hits is there for as many ticks as its lifetime
/// says and no longer: after fewer ticks of ageing it is in the slot with the
/// rest of its lifetime, after that many the slot is empty. One without any
/// lifetime is gone after the first tick.
pub proof fn lemma_lifetime_runs_out(p: ProjectileView, ticks: nat)
    ensures
        ticks < p.lifetime ==> aged_by(Some(p), ticks) == Some(
            p.with_lifetime((p.lifetime - ticks) as nat),
        ),
        ticks >= 1 && ticks >= p.lifetime ==> aged_by(Some(p), ticks) is None,
    decreases ticks,
{
    if ticks > 0 {
        lemma_lifetime_runs_out(p, (ticks - 1) as nat);
    }
}

/// The box `projectile` has entered `collider` over one of its edges.
pub open spec fn touches(projectile: TransformView, collider: TransformView) -> bool {
    collide_spec(
        projectile.translation,
        projectile.scale.truncate(),
        collider.translation,
        collider.scale.truncate(),
    ) matches Some(side) && side.is_edge()
}

/// A projectile of positive size that lies within a collider, edges
/// included, does not touch it.
pub proof fn lemma_enclosed_does_not_touch(projectile: TransformView, collider: TransformView)
    requires
        span(projectile.translation.x, projectile.scale.x).within(
            span(collider.translation.x, collider.scale.x),
        ),
        span(projectile.translation.y, projectile.scale.y).within(
            span(collider.translation.y, collider.scale.y),
        ),
    ensures
        !touches(projectile, collider),
{
    lemma_enclosed_is_inside(
        projectile.translation,
        projectile.scale.truncate(),
        collider.translation,
        collider.scale.truncate(),
    );
}

/// The number of `colliders` that `projectile` touches.
pub open spec fn contacts(projectile: TransformView, colliders: Seq<TransformView>) -> nat
    decreases colliders.len(),
{
    if colliders.len() == 0 {
        0
    } else {
        contacts(projectile, colliders.drop_last()) + if touches(projectile, colliders.last()) {
            1nat
        } else {
            0nat
        }
    }
}

/// The notices that the collision check sends: one for each collider that the
/// projectile touches, none where there is no projectile.
pub open spec fn notices(slot: Option<ProjectileView>, colliders: Seq<TransformView>) -> nat {
    match slot {
        Some(p) => contacts(p.transform, colliders),
        None => 0,
    }
}

/// A queue of `count` notices.
pub open spec fn queue_of(count: nat) -> Seq<CollisionEvent> {
    Seq::new(count, |i: int| CollisionEvent)
}

/// The slot after the collision check: a projectile that touches a collider
/// has no lifetime left, any other is as it was.
pub open spec fn struck(slot: Option<ProjectileView>, colliders: Seq<TransformView>) -> Option<
    ProjectileView,
> {
    match slot {
        Some(p) => if contacts(p.transform, colliders) > 0 {
            Some(p.with_lifetime(0))
        } else {
            Some(p)
        },
        None => None,
    }
}

/// Counting one collider more adds one if the projectile touches it.
proof fn lemma_contacts_step(projectile: TransformView, colliders: Seq<TransformView>, i: int)
    requires
        0 <= i < colliders.len(),
    ensures
        contacts(projectile, colliders.take(i + 1)) == contacts(projectile, colliders.take(i)) + if touches(
            projectile,
            colliders[i],
        ) {
            1nat
        } else {
            0nat
        },
{
    assert(colliders.take(i + 1).drop_last() =~= colliders.take(i));
}

/// The projectile touches some collider exactly if the number of those it
/// touches is not zero.
pub proof fn lemma_contacts_positive_iff(projectile: TransformView, colliders: Seq<TransformView>)
    ensures
        contacts(projectile, colliders) > 0 <==> exists|i: int|
            0 <= i < colliders.len() && touches(projectile, #[trigger] colliders[i]),
        contacts(projectile, colliders) <= colliders.len(),
    decreases colliders.len(),
{
    if colliders.len() > 0 {
        let front = colliders.drop_last();
        lemma_contacts_positive_iff(projectile, front);
        if contacts(projectile, colliders) > 0 {
            if touches(projectile, colliders.last()) {
                assert(touches(projectile, colliders[colliders.len() - 1]));
            } else {
                let i = choose|i: int| 0 <= i < front.len() && touches(projectile, #[trigger] front[i]);
                assert(touches(projectile, colliders[i]));
            }
        }
        if exists|i: int| 0 <= i < colliders.len() && touches(projectile, #[trigger] colliders[i]) {
            let i = choose|i: int| 0 <= i < colliders.len() && touches(projectile, #[trigger] colliders[i]);
            if i < front.len() {
                assert(touches(projectile, front[i]));
            }
        }
    }
}

/// Tests the projectile, if there is one, against every collider. For each
/// one that it touches a notice is queued, and if it touches any, its lifetime
/// is set to zero. A projectile inside a collider does not touch it.
pub fn check_for_collisions(
    projectile: &mut Option<Projectile>,
    colliders: &Vec<WallBundle>,
    collision_events: &mut Vec<CollisionEvent>,
)
    ensures
        final(projectile).deep_view() == struck(old(projectile).deep_view(), colliders.deep_view()),
        final(collision_events)@ == old(collision_events)@ + queue_of(
            notices(old(projectile).deep_view(), colliders.deep_view()),
        ),
{
    let flying: Projectile = match *projectile {
        Some(p) => p,
        None => {
            return ;
        },
    };
    let projectile_size: Vec2 = flying.transform.scale.truncate();
    let mut destroy_projectile: bool = false;
    let mut i: usize = 0;
    while i < colliders.len()
        invariant
            i <= colliders.len(),
            projectile_size@ == flying@.transform.scale.truncate(),
            collision_events@ == old(collision_events)@ + queue_of(
                contacts(flying@.transform, colliders.deep_view().take(i as int)),
            ),
            destroy_projectile == (contacts(flying@.transform, colliders.deep_view().take(i as int)) > 0),
        decreases colliders.len() - i,
    {
        let collider: WallBundle = colliders[i];
        let collision = collide(
            flying.transform.translation,
            projectile_size,
            collider.transform.translation,
            collider.transform.scale.truncate(),
        );
        proof {
            lemma_contacts_step(flying@.transform, colliders.deep_view(), i as int);
        }
        if let Some(side) = collision {
            if side.crosses_edge() {
                collision_events.push(CollisionEvent);
                destroy_projectile = true;
            }
        }
        i = i + 1;
    }
    assert(colliders.deep_view().take(i as int) =~= colliders.deep_view());
    if destroy_projectile {
        let mut spent: Projectile = flying;
        spent.lifetime = LifeTime(0);
        *projectile = Some(spent);
    }
}

/// Empties the queue of notices, and says whether the sound is to be played:
/// once if the queue held any notice, however many.
pub fn play_collision_sound(collision_events: &mut Vec<CollisionEvent>) -> (play: bool)
    ensures
        play == (old(collision_events)@.len() > 0),
        final(collision_events)@ == Seq::<CollisionEvent>::empty(),
{
    if !collision_events.is_empty() {
        collision_events.clear();
        true
    } else {
        false
    }
}

} // verus!
