use space_invader::arena::{PaddleBounds, WallBundle, WallLocation};
use space_invader::components::{CollisionEvent, Controls, LifeTime, Projectile, Velocity};
use space_invader::systems::{
    check_for_collisions, launch, move_player, play_collision_sound, system_apply_velocity,
    system_lifetime, system_spawn_projectile,
};
use space_invader::vector::{units, Transform, Vec2, Vec3};

const IDLE: Controls = Controls { left: false, right: false, fire: false };
const LEFT: Controls = Controls { left: true, right: false, fire: false };
const RIGHT: Controls = Controls { left: false, right: true, fire: false };
const BOTH: Controls = Controls { left: true, right: true, fire: false };
const FIRE: Controls = Controls { left: false, right: false, fire: true };

fn paddle_at(x: i64) -> Transform {
    Transform {
        translation: Vec3 { x, y: units(-275), z: 0 },
        scale: Vec3::from_units(120, 20, 0),
    }
}

fn projectile(at: (i32, i32), velocity: (i64, i64), lifetime: u32) -> Projectile {
    Projectile {
        transform: Transform {
            translation: Vec3::from_units(at.0, at.1, 0),
            scale: Vec3::from_units(20, 20, 20),
        },
        velocity: Velocity(Vec2::new(velocity.0, velocity.1)),
        lifetime: LifeTime(lifetime),
    }
}

fn wall(at: (i32, i32), size: (i32, i32)) -> WallBundle {
    WallBundle {
        transform: Transform {
            translation: Vec3::from_units(at.0, at.1, 0),
            scale: Vec3::from_units(size.0, size.1, 1),
        },
    }
}

fn moved(x: i64, controls: Controls, bounds: PaddleBounds) -> i64 {
    let mut player = paddle_at(x);
    move_player(&controls, &bounds, &mut player);
    assert_eq!(player.translation.y, units(-275));
    assert_eq!(player.translation.z, 0);
    assert_eq!(player.scale, Vec3::from_units(120, 20, 0));
    player.translation.x
}

#[test]
fn the_paddle_moves_a_sixtieth_of_its_speed_per_tick() {
    let bounds = PaddleBounds::default();
    assert_eq!(moved(0, RIGHT, bounds), 500);
    assert_eq!(moved(0, LEFT, bounds), -500);
    assert_eq!(moved(units(100), RIGHT, bounds), units(100) + 500);
    assert_eq!(moved(units(100), LEFT, bounds), units(100) - 500);
}

#[test]
fn the_paddle_rests_when_both_keys_or_none_are_held() {
    let bounds = PaddleBounds::default();
    assert_eq!(moved(0, IDLE, bounds), 0);
    assert_eq!(moved(0, BOTH, bounds), 0);
    assert_eq!(moved(1234, IDLE, bounds), 1234);
    assert_eq!(moved(-1234, BOTH, bounds), -1234);
}

#[test]
fn the_fire_key_does_not_move_the_paddle() {
    let bounds = PaddleBounds::default();
    assert_eq!(moved(0, FIRE, bounds), 0);
    assert_eq!(moved(0, Controls { left: true, right: false, fire: true }, bounds), -500);
}

#[test]
fn the_paddle_stops_at_the_bounds() {
    let bounds = PaddleBounds::default();
    assert_eq!(moved(units(540), RIGHT, bounds), units(540));
    assert_eq!(moved(units(540) - 499, RIGHT, bounds), units(540));
    assert_eq!(moved(units(540) - 500, RIGHT, bounds), units(540));
    assert_eq!(moved(units(540) - 501, RIGHT, bounds), units(540) - 1);
    assert_eq!(moved(units(-540), LEFT, bounds), units(-540));
    assert_eq!(moved(units(-540) + 499, LEFT, bounds), units(-540));
    assert_eq!(moved(units(-540) + 501, LEFT, bounds), units(-540) + 1);
}

#[test]
fn a_paddle_outside_the_bounds_is_brought_back() {
    let bounds = PaddleBounds::default();
    for controls in [IDLE, LEFT, RIGHT, BOTH] {
        assert_eq!(moved(units(10_000), controls, bounds), units(540));
        assert_eq!(moved(units(-10_000), controls, bounds), units(-540));
        assert_eq!(moved(i64::MAX, controls, bounds), units(540));
        assert_eq!(moved(i64::MIN, controls, bounds), units(-540));
    }
}

#[test]
fn the_paddle_is_within_the_bounds_after_every_move() {
    let narrow = PaddleBounds::new(600, 300).unwrap();
    for bounds in [PaddleBounds::default(), narrow, PaddleBounds { left: 7, right: 7 }] {
        for controls in [IDLE, LEFT, RIGHT, BOTH] {
            let mut x = -40_000;
            while x <= 40_000 {
                let after = moved(x, controls, bounds);
                assert!(bounds.left <= after && after <= bounds.right);
                x += 250;
            }
        }
    }
}

#[test]
fn narrower_bounds_stop_the_paddle_earlier() {
    let bounds = PaddleBounds::new(600, 300).unwrap();
    assert_eq!(moved(units(520), RIGHT, bounds), units(525));
    assert_eq!(moved(units(-520), LEFT, bounds), units(-525));
    assert_eq!(moved(0, RIGHT, bounds), 500);
}

#[test]
fn firing_with_nothing_in_flight_spawns_one_projectile() {
    let player = paddle_at(units(100));
    let mut slot = None;
    system_spawn_projectile(&FIRE, &player, &mut slot);
    let spawned = slot.unwrap();
    assert_eq!(spawned.transform.translation, Vec3::from_units(100, -275, 0));
    assert_eq!(spawned.transform.scale, Vec3::from_units(20, 20, 20));
    assert_eq!(spawned.velocity, Velocity(Vec2::new(0, 1000)));
    assert_eq!(spawned.lifetime, LifeTime(180));
    assert_eq!(spawned, launch(player.translation));
}

#[test]
fn a_fresh_projectile_is_as_fast_as_the_projectile_speed() {
    let fresh = launch(Vec3::from_units(0, 0, 0));
    let Velocity(v) = fresh.velocity;
    assert_eq!(v.x * v.x + v.y * v.y, 1000 * 1000);
}

#[test]
fn firing_again_spawns_no_second_projectile() {
    let mut slot = None;
    system_spawn_projectile(&FIRE, &paddle_at(0), &mut slot);
    let first = slot;
    system_spawn_projectile(&FIRE, &paddle_at(units(50)), &mut slot);
    assert_eq!(slot, first);
    assert_eq!(slot.unwrap().transform.translation, Vec3::from_units(0, -275, 0));
}

#[test]
fn firing_leaves_a_projectile_in_flight_as_it_is() {
    let flying = projectile((3, 4), (0, 600), 17);
    let mut slot = Some(flying);
    system_spawn_projectile(&FIRE, &paddle_at(0), &mut slot);
    assert_eq!(slot, Some(flying));
}

#[test]
fn nothing_is_spawned_unless_the_fire_key_is_held() {
    for controls in [IDLE, LEFT, RIGHT, BOTH] {
        let mut slot = None;
        system_spawn_projectile(&controls, &paddle_at(0), &mut slot);
        assert_eq!(slot, None);
    }
}

#[test]
fn firing_while_moving_spawns_too() {
    let mut slot = None;
    let controls = Controls { left: true, right: true, fire: true };
    system_spawn_projectile(&controls, &paddle_at(-60), &mut slot);
    assert_eq!(slot, Some(launch(Vec3::new(-60, units(-275), 0))));
}

#[test]
fn a_velocity_of_600_moves_ten_units_per_tick() {
    let mut slot = Some(projectile((0, 0), (0, 600), 180));
    system_apply_velocity(&mut slot);
    let after = slot.unwrap();
    assert_eq!(after.transform.translation, Vec3::from_units(0, 10, 0));
    assert_eq!(after.transform.scale, Vec3::from_units(20, 20, 20));
    assert_eq!(after.velocity, Velocity(Vec2::new(0, 600)));
    assert_eq!(after.lifetime, LifeTime(180));
}

#[test]
fn sixty_ticks_move_a_projectile_by_its_velocity() {
    let mut slot = Some(projectile((5, -7), (-13, 1000), 180));
    for _ in 0..60 {
        system_apply_velocity(&mut slot);
    }
    assert_eq!(slot.unwrap().transform.translation, Vec3::from_units(5 - 13, -7 + 1000, 0));
}

#[test]
fn each_axis_moves_by_its_own_part_of_the_velocity() {
    let mut slot = Some(projectile((1, 2), (7, -11), 1));
    system_apply_velocity(&mut slot);
    assert_eq!(slot.unwrap().transform.translation, Vec3::new(60 + 7, 120 - 11, 0));
    let mut still = Some(projectile((1, 2), (0, 0), 1));
    system_apply_velocity(&mut still);
    assert_eq!(still, Some(projectile((1, 2), (0, 0), 1)));
}

#[test]
fn velocity_is_applied_to_nothing_where_nothing_flies() {
    let mut slot = None;
    system_apply_velocity(&mut slot);
    assert_eq!(slot, None);
}

#[test]
fn a_lifetime_of_three_ticks_ends_with_the_third() {
    let start = projectile((0, 0), (0, 1000), 3);
    let mut slot = Some(start);
    system_lifetime(&mut slot);
    assert_eq!(slot, Some(Projectile { lifetime: LifeTime(2), ..start }));
    system_lifetime(&mut slot);
    assert_eq!(slot, Some(Projectile { lifetime: LifeTime(1), ..start }));
    system_lifetime(&mut slot);
    assert_eq!(slot, None);
    system_lifetime(&mut slot);
    assert_eq!(slot, None);
}

#[test]
fn a_lifetime_of_one_tick_or_none_ends_at_once() {
    let mut last = Some(projectile((0, 0), (0, 1000), 1));
    system_lifetime(&mut last);
    assert_eq!(last, None);
    let mut spent = Some(projectile((0, 0), (0, 1000), 0));
    system_lifetime(&mut spent);
    assert_eq!(spent, None);
}

#[test]
fn a_fresh_projectile_lives_for_180_ticks() {
    let mut slot = Some(launch(Vec3::from_units(0, 0, 0)));
    for tick in 1..180 {
        system_lifetime(&mut slot);
        assert_eq!(slot.unwrap().lifetime, LifeTime(180 - tick));
    }
    system_lifetime(&mut slot);
    assert_eq!(slot, None);
}

#[test]
fn the_longest_lifetime_loses_one_tick() {
    let mut slot = Some(projectile((0, 0), (0, 0), u32::MAX));
    system_lifetime(&mut slot);
    assert_eq!(slot.unwrap().lifetime, LifeTime(u32::MAX - 1));
}

#[test]
fn a_projectile_under_the_top_wall_is_hit() {
    let colliders = vec![wall((0, 300), (1210, 20))];
    let flying = projectile((0, 290), (0, 1000), 100);
    let mut slot = Some(flying);
    let mut events = Vec::new();
    check_for_collisions(&mut slot, &colliders, &mut events);
    assert_eq!(events, vec![CollisionEvent]);
    assert_eq!(slot, Some(Projectile { lifetime: LifeTime(0), ..flying }));

    system_lifetime(&mut slot);
    assert_eq!(slot, None);
    assert!(play_collision_sound(&mut events));
    assert!(events.is_empty());
    assert!(!play_collision_sound(&mut events));
}

#[test]
fn a_projectile_inside_a_collider_is_not_hit() {
    let colliders = vec![wall((0, 300), (1210, 50))];
    let flying = projectile((0, 290), (0, 1000), 100);
    let mut slot = Some(flying);
    let mut events = Vec::new();
    check_for_collisions(&mut slot, &colliders, &mut events);
    assert!(events.is_empty());
    assert_eq!(slot, Some(flying));

    system_lifetime(&mut slot);
    assert_eq!(slot, Some(Projectile { lifetime: LifeTime(99), ..flying }));
    assert!(!play_collision_sound(&mut events));
}

#[test]
fn a_projectile_away_from_every_wall_is_not_hit() {
    let colliders = vec![
        WallBundle::new(WallLocation::Left),
        WallBundle::new(WallLocation::Right),
        WallBundle::new(WallLocation::Bottom),
        WallBundle::new(WallLocation::Top),
    ];
    let flying = projectile((0, 0), (0, 1000), 100);
    let mut slot = Some(flying);
    let mut events = Vec::new();
    check_for_collisions(&mut slot, &colliders, &mut events);
    assert!(events.is_empty());
    assert_eq!(slot, Some(flying));
}

#[test]
fn each_wall_of_the_arena_stops_a_projectile() {
    let colliders = vec![
        WallBundle::new(WallLocation::Left),
        WallBundle::new(WallLocation::Right),
        WallBundle::new(WallLocation::Bottom),
        WallBundle::new(WallLocation::Top),
    ];
    for at in [(-590, 0), (590, 0), (0, -290), (0, 290)] {
        let flying = projectile(at, (0, 1000), 100);
        let mut slot = Some(flying);
        let mut events = Vec::new();
        check_for_collisions(&mut slot, &colliders, &mut events);
        assert_eq!(events.len(), 1);
        assert_eq!(slot, Some(Projectile { lifetime: LifeTime(0), ..flying }));
    }
}

#[test]
fn a_projectile_in_a_corner_sends_a_notice_for_each_wall() {
    let colliders = vec![
        WallBundle::new(WallLocation::Left),
        WallBundle::new(WallLocation::Right),
        WallBundle::new(WallLocation::Bottom),
        WallBundle::new(WallLocation::Top),
    ];
    let flying = projectile((590, 290), (0, 1000), 100);
    let mut slot = Some(flying);
    let mut events = Vec::new();
    check_for_collisions(&mut slot, &colliders, &mut events);
    assert_eq!(events.len(), 2);
    assert_eq!(slot, Some(Projectile { lifetime: LifeTime(0), ..flying }));
    assert!(play_collision_sound(&mut events));
    assert!(events.is_empty());
}

#[test]
fn a_hit_counts_whichever_collider_comes_first() {
    let touched = wall((0, 300), (1210, 20));
    let around = wall((0, 290), (100, 100));
    let apart = wall((0, -300), (1210, 20));
    let flying = projectile((0, 290), (0, 1000), 100);
    for colliders in [
        vec![touched, around, apart],
        vec![around, apart, touched],
        vec![apart, touched, around],
    ] {
        let mut slot = Some(flying);
        let mut events = Vec::new();
        check_for_collisions(&mut slot, &colliders, &mut events);
        assert_eq!(events.len(), 1);
        assert_eq!(slot.unwrap().lifetime, LifeTime(0));
    }
}

#[test]
fn notices_are_added_to_those_already_queued() {
    let colliders = vec![wall((0, 300), (1210, 20))];
    let mut slot = Some(projectile((0, 290), (0, 1000), 100));
    let mut events = vec![CollisionEvent, CollisionEvent];
    check_for_collisions(&mut slot, &colliders, &mut events);
    assert_eq!(events.len(), 3);
}

#[test]
fn without_a_projectile_nothing_collides() {
    let colliders = vec![wall((0, 300), (1210, 20))];
    let mut slot = None;
    let mut events = Vec::new();
    check_for_collisions(&mut slot, &colliders, &mut events);
    assert_eq!(slot, None);
    assert!(events.is_empty());
}

#[test]
fn without_colliders_nothing_collides() {
    let flying = projectile((0, 290), (0, 1000), 100);
    let mut slot = Some(flying);
    let mut events = Vec::new();
    check_for_collisions(&mut slot, &Vec::new(), &mut events);
    assert_eq!(slot, Some(flying));
    assert!(events.is_empty());
}

#[test]
fn a_projectile_with_no_lifetime_left_still_collides() {
    let colliders = vec![wall((0, 300), (1210, 20))];
    let mut slot = Some(projectile((0, 290), (0, 1000), 0));
    let mut events = Vec::new();
    check_for_collisions(&mut slot, &colliders, &mut events);
    assert_eq!(events.len(), 1);
    assert_eq!(slot.unwrap().lifetime, LifeTime(0));
}

#[test]
fn many_notices_give_one_sound() {
    let mut events = vec![CollisionEvent; 5];
    assert!(play_collision_sound(&mut events));
    assert!(events.is_empty());
    assert!(!play_collision_sound(&mut events));
    assert!(events.is_empty());
}

#[test]
fn no_notice_gives_no_sound() {
    let mut events = Vec::new();
    assert!(!play_collision_sound(&mut events));
    assert!(events.is_empty());
}

#[test]
fn a_projectile_can_move_unless_its_place_would_overflow() {
    let mut shot = projectile((0, 0), (0, 1000), 1);
    assert!(shot.can_move());

    shot.transform.translation = Vec3::new(i64::MAX, i64::MIN, 0);
    shot.velocity = Velocity(Vec2::new(0, 0));
    assert!(shot.can_move());
    shot.velocity = Velocity(Vec2::new(-1, 1));
    assert!(shot.can_move());
    shot.velocity = Velocity(Vec2::new(1, 0));
    assert!(!shot.can_move());
    shot.velocity = Velocity(Vec2::new(0, -1));
    assert!(!shot.can_move());

    shot.transform.translation = Vec3::new(0, -1, 0);
    shot.velocity = Velocity(Vec2::new(i64::MAX, i64::MIN));
    assert!(!shot.can_move());
    shot.transform.translation = Vec3::new(0, 0, 0);
    assert!(shot.can_move());
    let mut slot = Some(shot);
    system_apply_velocity(&mut slot);
    assert_eq!(slot.unwrap().transform.translation, Vec3::new(i64::MAX, i64::MIN, 0));
}
