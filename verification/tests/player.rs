use cube_arena::entity::{Entity, Kind};
use cube_arena::input::{ButtonInput, KeyCode, Keys};
use cube_arena::math::{Vec3, Velocity};
use cube_arena::player::{
    followable, horizontal, movable, move_player, update_camera_with_player, velocity_gain,
};
use cube_arena::startup::{setup, spawn_walls};
use cube_arena::world::World;

const FRAME: u64 = 16_666_667;

fn keys(down: &[KeyCode]) -> ButtonInput {
    let mut now = Keys::none();
    for key in down {
        now = now.with(*key);
    }
    ButtonInput { previous: now, current: now }
}

fn started() -> World {
    let mut world = World::new();
    setup(&mut world);
    spawn_walls(&mut world);
    world
}

fn player_velocity(world: &World) -> Velocity {
    world.get(world.single(Kind::Player).unwrap()).unwrap().linear_velocity
}

#[test]
fn the_intent_is_right_minus_left() {
    assert_eq!(horizontal(keys(&[])), 0);
    assert_eq!(horizontal(keys(&[KeyCode::KeyD])), 1);
    assert_eq!(horizontal(keys(&[KeyCode::KeyA])), -1);
    assert_eq!(horizontal(keys(&[KeyCode::KeyA, KeyCode::KeyD])), 0);
    assert_eq!(horizontal(keys(&[KeyCode::Space, KeyCode::Digit1])), 0);
}

#[test]
fn the_gain_is_intent_times_acceleration_times_time() {
    assert_eq!(velocity_gain(1, 12_000, FRAME), 200_000_004_000);
    assert_eq!(velocity_gain(-1, 12_000, FRAME), -200_000_004_000);
    assert_eq!(velocity_gain(0, 12_000, FRAME), 0);
    assert_eq!(velocity_gain(1, 12_000, 1_000_000_000), 12_000_000_000_000);
    assert_eq!(velocity_gain(1, -5, 3), -15);
    assert_eq!(velocity_gain(1, 12_000, 0), 0);
}

#[test]
fn the_gain_of_the_largest_inputs_can_be_held() {
    assert_eq!(velocity_gain(1, i64::MAX, u64::MAX), (i64::MAX as i128) * (u64::MAX as i128));
    assert_eq!(velocity_gain(-1, i64::MIN, u64::MAX), -((i64::MIN as i128) * (u64::MAX as i128)));
    assert_eq!(velocity_gain(1, i64::MIN, u64::MAX), (i64::MIN as i128) * (u64::MAX as i128));
}

#[test]
fn the_right_key_speeds_the_player_up_along_x() {
    let mut world = started();
    move_player(&keys(&[KeyCode::KeyD]), FRAME, &mut world);
    assert_eq!(player_velocity(&world), Velocity::new(200_000_004_000, 0, 0));
    move_player(&keys(&[KeyCode::KeyD]), FRAME, &mut world);
    assert_eq!(player_velocity(&world), Velocity::new(400_000_008_000, 0, 0));
}

#[test]
fn the_left_key_speeds_the_player_up_the_other_way() {
    let mut world = started();
    move_player(&keys(&[KeyCode::KeyA]), 1_000_000_000, &mut world);
    assert_eq!(player_velocity(&world), Velocity::new(-12_000_000_000_000, 0, 0));
}

#[test]
fn both_keys_together_do_not_accelerate() {
    let mut world = started();
    world.set_linear_velocity(2, Velocity::new(5, 6, 7));
    let before = world.entities.clone();
    move_player(&keys(&[KeyCode::KeyA, KeyCode::KeyD]), FRAME, &mut world);
    assert_eq!(world.entities, before);
    assert_eq!(player_velocity(&world), Velocity::new(5, 6, 7));
}

#[test]
fn no_key_does_not_accelerate() {
    let mut world = started();
    let before = world.entities.clone();
    move_player(&keys(&[]), FRAME, &mut world);
    assert_eq!(world.entities, before);
}

#[test]
fn steering_touches_the_player_only() {
    let mut world = started();
    let before = world.entities.clone();
    move_player(&keys(&[KeyCode::KeyD]), FRAME, &mut world);
    for (index, entity) in world.entities.iter().enumerate() {
        if entity.kind == Kind::Player {
            let mut expected = before[index];
            expected.linear_velocity.x = 200_000_004_000;
            assert_eq!(*entity, expected);
        } else {
            assert_eq!(*entity, before[index]);
        }
    }
    assert_eq!(world.next_id, 8);
}

#[test]
fn speed_is_not_capped() {
    let mut world = started();
    for _ in 0..1000 {
        move_player(&keys(&[KeyCode::KeyD]), 1_000_000_000, &mut world);
    }
    assert_eq!(player_velocity(&world).x, 12_000_000_000_000_000);
}

#[test]
fn a_player_without_acceleration_is_left_alone() {
    let mut world = World::new();
    let mut player = Entity::player();
    player.movement_acceleration = None;
    world.spawn(player);
    move_player(&keys(&[KeyCode::KeyD]), FRAME, &mut world);
    assert_eq!(player_velocity(&world), Velocity::new(0, 0, 0));
}

#[test]
fn a_velocity_out_of_range_is_told_apart() {
    let mut world = started();
    assert!(movable(&keys(&[KeyCode::KeyD]), FRAME, &world));
    world.set_linear_velocity(2, Velocity::new(i128::MAX, 0, 0));
    assert!(!movable(&keys(&[KeyCode::KeyD]), FRAME, &world));
    assert!(movable(&keys(&[KeyCode::KeyA]), FRAME, &world));
    assert!(movable(&keys(&[KeyCode::KeyA, KeyCode::KeyD]), FRAME, &world));
    assert!(movable(&keys(&[KeyCode::KeyD]), 0, &world));
    world.set_linear_velocity(2, Velocity::new(i128::MAX - 200_000_004_000, 0, 0));
    assert!(movable(&keys(&[KeyCode::KeyD]), FRAME, &world));
    move_player(&keys(&[KeyCode::KeyD]), FRAME, &mut world);
    assert_eq!(player_velocity(&world).x, i128::MAX);
}

#[test]
fn the_camera_follows_the_player() {
    let mut world = started();
    world.set_translation(2, Vec3::new(1_000, 1_100, 6_000));
    assert!(followable(&world));
    update_camera_with_player(&mut world);
    let camera = world.get(world.single(Kind::Camera).unwrap()).unwrap();
    assert_eq!(camera.translation, Vec3::new(1_000, 6_100, 24_000));
    assert_eq!(camera.looking_at, Some(Vec3::new(1_000, 1_100, 6_000)));
    assert_eq!(camera.id, 0);
    assert_eq!(world.len(), 8);
}

#[test]
fn the_camera_stays_without_a_single_player() {
    let mut world = World::new();
    world.spawn(Entity::camera());
    let before = world.entities.clone();
    update_camera_with_player(&mut world);
    assert_eq!(world.entities, before);
    world.spawn(Entity::player());
    world.spawn(Entity::player());
    let before = world.entities.clone();
    assert!(followable(&world));
    update_camera_with_player(&mut world);
    assert_eq!(world.entities, before);
}

#[test]
fn nothing_follows_without_a_single_camera() {
    let mut world = World::new();
    world.spawn(Entity::player());
    let before = world.entities.clone();
    update_camera_with_player(&mut world);
    assert_eq!(world.entities, before);
}

#[test]
fn a_camera_place_out_of_range_is_told_apart() {
    let mut world = started();
    world.set_translation(2, Vec3::new(0, 0, i64::MAX - 17_999));
    assert!(!followable(&world));
    world.set_translation(2, Vec3::new(0, 0, i64::MAX - 18_000));
    assert!(followable(&world));
    update_camera_with_player(&mut world);
    assert_eq!(world.get(0).unwrap().translation, Vec3::new(0, 5_000, i64::MAX));
}
