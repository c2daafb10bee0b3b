use cube_arena::config::{FpsOverlayConfig, OverlayColor, PresentMode};
use cube_arena::entity::Kind;
use cube_arena::game::Game;
use cube_arena::input::{KeyCode, Keys};
use cube_arena::math::{Vec3, Velocity};

const FRAME: u64 = 16_666_667;
const SECOND: u64 = 1_000_000_000;

fn down(keys: &[KeyCode]) -> Keys {
    let mut now = Keys::none();
    for key in keys {
        now = now.with(*key);
    }
    now
}

fn assert_scene(game: &Game) {
    assert_eq!(game.world.count(Kind::Player), 1);
    assert_eq!(game.world.count(Kind::Ground), 1);
    assert_eq!(game.world.count(Kind::Camera), 1);
    assert_eq!(game.world.count(Kind::Wall), 3);
    assert!(game.shoot_state.is_shoot);
}

#[test]
fn a_new_game_holds_the_scene_and_the_walls() {
    let game = Game::new();
    assert_scene(&game);
    assert_eq!(game.world.len(), 8);
    assert_eq!(game.world.next_id, 8);
    assert_eq!(game.world.count(Kind::Bullet), 0);
    assert_eq!(game.window.present_mode, PresentMode::Fifo);
    assert_eq!(
        game.overlay,
        FpsOverlayConfig {
            text_color: OverlayColor::Green,
            font_size: 30,
            enabled: true,
            refresh_interval: 100_000_000,
        }
    );
    assert_eq!(game.input.current, Keys::none());
    assert_eq!(game.input.previous, Keys::none());
}

#[test]
fn an_idle_frame_changes_nothing_but_reports() {
    let mut game = Game::new();
    let before = game.world.entities.clone();
    assert!(game.updatable(Keys::none(), FRAME));
    let frame = game.update(Keys::none(), FRAME);
    assert_eq!(frame.spawned, None);
    assert!(frame.despawned.is_empty());
    assert_eq!(frame.status, "Vsync Status: ON");
    assert_eq!(game.world.entities, before);
    assert_scene(&game);
}

#[test]
fn the_scene_stays_through_every_frame() {
    let mut game = Game::new();
    let script = [
        down(&[KeyCode::Space]),
        down(&[KeyCode::Space, KeyCode::KeyA]),
        down(&[KeyCode::KeyA]),
        down(&[KeyCode::Space, KeyCode::KeyD]),
        down(&[]),
        down(&[KeyCode::Space, KeyCode::Digit1, KeyCode::ControlLeft]),
        down(&[KeyCode::AltLeft, KeyCode::ControlLeft]),
        down(&[KeyCode::KeyA, KeyCode::KeyD]),
    ];
    for round in 0..400 {
        let keys = script[round % script.len()];
        assert!(game.updatable(keys, FRAME));
        game.update(keys, FRAME);
        assert_scene(&game);
    }
}

#[test]
fn one_press_fires_one_bullet_however_long_it_is_held() {
    let mut game = Game::new();
    let frame = game.update(down(&[KeyCode::Space]), FRAME);
    assert_eq!(frame.spawned, Some(8));
    assert_eq!(game.world.count(Kind::Bullet), 1);
    for _ in 0..50 {
        let frame = game.update(down(&[KeyCode::Space]), FRAME);
        assert_eq!(frame.spawned, None);
        assert_eq!(game.world.count(Kind::Bullet), 1);
    }
    assert_eq!(game.world.next_id, 9);
}

#[test]
fn every_new_press_fires_again() {
    let mut game = Game::new();
    let mut fired = Vec::new();
    for _ in 0..5 {
        fired.push(game.update(down(&[KeyCode::Space]), FRAME).spawned);
        fired.push(game.update(down(&[]), FRAME).spawned);
    }
    assert_eq!(
        fired,
        vec![Some(8), None, Some(9), None, Some(10), None, Some(11), None, Some(12), None]
    );
    assert_eq!(game.world.count(Kind::Bullet), 5);
}

#[test]
fn a_bullet_is_aged_in_the_frame_in_which_it_is_fired() {
    let mut game = Game::new();
    game.update(down(&[KeyCode::Space]), SECOND);
    let bullet = game.world.get(game.world.find(8).unwrap()).unwrap();
    assert_eq!(bullet.lifetime.unwrap().elapsed, SECOND);
    assert_eq!(bullet.translation, Vec3::new(0, 1_100, 6_000));
    assert_eq!(bullet.linear_velocity, Velocity::new(0, 0, -1_500_000_000_000_000));
}

#[test]
fn a_bullet_leaves_after_three_seconds_of_frames() {
    let mut game = Game::new();
    assert_eq!(game.update(down(&[KeyCode::Space]), SECOND).despawned, Vec::<u64>::new());
    assert_eq!(game.update(down(&[KeyCode::Space]), SECOND).despawned, Vec::<u64>::new());
    assert_eq!(game.world.count(Kind::Bullet), 1);
    assert_eq!(game.update(down(&[KeyCode::Space]), SECOND).despawned, vec![8]);
    assert_eq!(game.world.count(Kind::Bullet), 0);
    assert_scene(&game);
}

#[test]
fn a_frame_of_three_seconds_fires_and_removes_at_once() {
    let mut game = Game::new();
    let frame = game.update(down(&[KeyCode::Space]), 3 * SECOND);
    assert_eq!(frame.spawned, Some(8));
    assert_eq!(frame.despawned, vec![8]);
    assert_eq!(game.world.len(), 8);
    assert_eq!(game.world.next_id, 9);
}

#[test]
fn steering_acts_within_the_frame() {
    let mut game = Game::new();
    game.update(down(&[KeyCode::KeyD]), FRAME);
    let player = game.world.get(game.world.single(Kind::Player).unwrap()).unwrap();
    assert_eq!(player.linear_velocity, Velocity::new(200_000_004_000, 0, 0));
    game.update(down(&[KeyCode::KeyA, KeyCode::KeyD]), FRAME);
    let player = game.world.get(game.world.single(Kind::Player).unwrap()).unwrap();
    assert_eq!(player.linear_velocity.x, 200_000_004_000);
    game.update(down(&[KeyCode::KeyA]), FRAME);
    let player = game.world.get(game.world.single(Kind::Player).unwrap()).unwrap();
    assert_eq!(player.linear_velocity.x, 0);
}

#[test]
fn the_status_line_follows_the_chord_in_the_same_frame() {
    let mut game = Game::new();
    game.update(down(&[KeyCode::ControlLeft]), FRAME);
    let frame = game.update(down(&[KeyCode::ControlLeft, KeyCode::AltLeft]), FRAME);
    assert_eq!(frame.status, "Vsync Status: OFF");
    assert_eq!(game.window.present_mode, PresentMode::Immediate);
    let frame = game.update(down(&[KeyCode::ControlLeft, KeyCode::AltLeft]), FRAME);
    assert_eq!(frame.status, "Vsync Status: OFF");
    game.update(down(&[KeyCode::ControlLeft]), FRAME);
    let frame = game.update(down(&[KeyCode::ControlLeft, KeyCode::AltLeft]), FRAME);
    assert_eq!(frame.status, "Vsync Status: ON");
    assert_eq!(game.window.present_mode, PresentMode::Fifo);
}

#[test]
fn the_overlay_keys_act_on_their_edges() {
    let mut game = Game::new();
    for _ in 0..3 {
        game.update(down(&[KeyCode::Digit1, KeyCode::Digit3]), FRAME);
        game.update(down(&[KeyCode::Digit3]), FRAME);
        game.update(down(&[]), FRAME);
    }
    assert_eq!(game.overlay.text_color, OverlayColor::Red);
    assert_eq!(game.overlay.font_size, 36);
    game.update(down(&[KeyCode::Digit4, KeyCode::Digit2]), FRAME);
    assert!(!game.overlay.enabled);
    assert_eq!(game.overlay.font_size, 34);
    assert_eq!(game.overlay.refresh_interval, 100_000_000);
}

#[test]
fn a_frame_that_cannot_run_is_told_apart() {
    let mut game = Game::new();
    game.world.next_id = u64::MAX;
    assert!(!game.updatable(down(&[KeyCode::Space]), FRAME));
    assert!(game.updatable(down(&[KeyCode::KeyD]), FRAME));
    let mut game = Game::new();
    game.overlay.font_size = i64::MIN;
    assert!(!game.updatable(down(&[KeyCode::Digit2]), FRAME));
    assert!(game.updatable(down(&[KeyCode::Digit3]), FRAME));
    let mut game = Game::new();
    game.world.set_linear_velocity(2, Velocity::new(i128::MIN, 0, 0));
    assert!(!game.updatable(down(&[KeyCode::KeyA]), FRAME));
    assert!(game.updatable(down(&[KeyCode::KeyD]), FRAME));
}

#[test]
fn identifiers_are_never_given_twice() {
    let mut game = Game::new();
    let mut seen = Vec::new();
    for round in 0..40 {
        let keys = if round % 2 == 0 { down(&[KeyCode::Space]) } else { down(&[]) };
        let frame = game.update(keys, SECOND);
        if let Some(id) = frame.spawned {
            assert!(!seen.contains(&id));
            seen.push(id);
        }
        let mut ids: Vec<u64> = game.world.entities.iter().map(|entity| entity.id).collect();
        let count = ids.len();
        ids.sort();
        ids.dedup();
        assert_eq!(ids.len(), count);
        assert!(ids.iter().all(|id| *id < game.world.next_id));
    }
    assert_eq!(seen.len(), 20);
}
