//! The whole game: the world and the settings together, and the frame that
//! moves them on.

use crate::bullet::{
    after_shooting, aging, can_shoot, despawn_bullet, expiring, id_of, reset_shoot_flag,
    shoot_bullet, shootable,
};
use crate::config::{
    FpsOverlayConfig, OverlayColor, ShootState, VsyncStatus, Window, OVERLAY_FONT_SIZE,
    OVERLAY_REFRESH_INTERVAL,
};
use crate::entity::{Entity, Kind};
use crate::input::{ButtonInput, KeyCode, Keys};
use crate::player::{
    can_move_player, lemma_steering_keeps_player, movable, move_player, spec_horizontal, steering,
};
use crate::settings::{
    can_customize, customizable, customize_config, display_settings, enabled_after,
    font_size_after, game_setting, present_mode_after, text_color_after, vsync_line,
};
use crate::startup::{scene, setup, spawn_walls, walls};
use crate::world::{count_kind, lemma_count_zero, World};
use vstd::prelude::*;

verus! {

/// Whether the fixed part of the world is in place: exactly one player, one
/// ground and one camera, and exactly three walls.
pub open spec fn has_scene(entities: Seq<Entity>) -> bool {
    &&& count_kind(entities, Kind::Player) == 1
    &&& count_kind(entities, Kind::Ground) == 1
    &&& count_kind(entities, Kind::Camera) == 1
    &&& count_kind(entities, Kind::Wall) == 3
}

/// The entities after the player has been steered.
pub open spec fn steered_world(entities: Seq<Entity>, input: ButtonInput, delta: u64) -> Seq<
    Entity,
> {
    entities.map_values(steering(spec_horizontal(input), delta))
}

/// The entities after steering and firing, with the shoot flag set at the
/// start of the frame.
pub open spec fn shot_world(
    entities: Seq<Entity>,
    next_id: u64,
    input: ButtonInput,
    delta: u64,
) -> Seq<Entity> {
    after_shooting(
        steered_world(entities, input, delta),
        next_id,
        ShootState { is_shoot: true },
        input,
        delta,
    )
}

/// The entities at the end of a frame: the player steered, a bullet fired
/// on the fire key's edge, every bullet aged by the frame's time and those
/// whose time is up removed.
pub open spec fn after_frame(
    entities: Seq<Entity>,
    next_id: u64,
    input: ButtonInput,
    delta: u64,
) -> Seq<Entity> {
    shot_world(entities, next_id, input, delta).filter_map(aging(delta))
}

/// What a frame did to the world, for whoever mirrors it.
#[derive(Debug)]
pub struct Frame {
    /// The identifier of the bullet fired in this frame, if one was.
    pub spawned: Option<u64>,
    /// The identifiers of the bullets removed in this frame, oldest first.
    pub despawned: Vec<u64>,
    /// The line that reports the vsync state.
    pub status: String,
}

/// The game's whole state.
#[derive(Debug)]
pub struct Game {
    pub world: World,
    pub shoot_state: ShootState,
    pub overlay: FpsOverlayConfig,
    pub window: Window,
    pub input: ButtonInput,
}

impl Game {
    /// What holds between frames: identifiers are in order, the fixed part
    /// of the world is in place, and the shoot flag is set.
    pub open spec fn inv(&self) -> bool {
        &&& self.world.wf()
        &&& has_scene(self.world@)
        &&& self.shoot_state.is_shoot
    }

    /// Whether the frame with the keys `keys` down and `delta` nanoseconds
    /// long can run: whether each new velocity, the new bullet's place and
    /// identifier, and the new font size can be held.
    pub open spec fn can_update(&self, keys: Keys, delta: u64) -> bool {
        let input = self.input.next(keys);
        &&& can_move_player(self.world@, input, delta)
        &&& can_shoot(
            steered_world(self.world@, input, delta),
            self.world.next_id,
            self.shoot_state,
            input,
        )
        &&& can_customize(self.overlay, input)
    }

    /// The game before its first frame: the scene and the walls spawned,
    /// the shoot flag set, vsync on, the overlay green, thirty points high and
    /// shown, no key down.
    pub fn new() -> (game: Game)
        ensures
            game.inv(),
            game.world@ == scene(0) + walls(5),
            game.world.next_id == 8,
            count_kind(game.world@, Kind::Bullet) == 0,
            game.overlay == (FpsOverlayConfig {
                text_color: OverlayColor::Green,
                font_size: OVERLAY_FONT_SIZE,
                enabled: true,
                refresh_interval: OVERLAY_REFRESH_INTERVAL,
            }),
            game.window.present_mode == VsyncStatus::ON,
            game.input.previous == Keys::released(),
            game.input.current == Keys::released(),
    {
        let mut world = World::new();
        proof {
            assert forall|kind: Kind| #[trigger] count_kind(world@, kind) == 0 by {
                lemma_count_zero(world@, kind);
            }
        }
        setup(&mut world);
        spawn_walls(&mut world);
        proof {
            assert(world@ =~= scene(0) + walls(5));
        }
        Game {
            world,
            shoot_state: ShootState { is_shoot: true },
            overlay: FpsOverlayConfig {
                text_color: OverlayColor::Green,
                font_size: OVERLAY_FONT_SIZE,
                enabled: true,
                refresh_interval: OVERLAY_REFRESH_INTERVAL,
            },
            window: Window { present_mode: VsyncStatus::ON },
            input: ButtonInput::new(),
        }
    }

    /// Tests whether the frame with the keys `keys` down and `delta`
    /// nanoseconds long can run.
    pub fn updatable(&self, keys: Keys, delta: u64) -> (ok: bool)
        ensures
            ok == self.can_update(keys, delta),
    {
        let mut input = self.input;
        input.advance(keys);
        proof {
            lemma_steering_keeps_player(self.world@, spec_horizontal(input), delta);
        }
        movable(&input, delta, &self.world) && shootable(&input, &self.world, &self.shoot_state)
            && customizable(&self.overlay, &input)
    }

    /// Runs one frame with the keys `keys` down, `delta` nanoseconds long.
    /// In order: the keyboard moves on, the player is steered, a bullet is
    /// fired on the fire key's edge, the shoot flag is set again, the overlay
    /// and vsync keys are applied, the status line is made, and the
    /// bullets are aged and removed.
    pub fn update(&mut self, keys: Keys, delta: u64) -> (frame: Frame)
        requires
            old(self).inv(),
            old(self).can_update(keys, delta),
        ensures
            final(self).inv(),
            final(self).input == old(self).input.next(keys),
            final(self).world@ == after_frame(
                old(self).world@,
                old(self).world.next_id,
                final(self).input,
                delta,
            ),
            final(self).world.next_id == old(self).world.next_id + if frame.spawned is Some {
                1int
            } else {
                0int
            },
            frame.spawned is Some <==> final(self).input.just_pressed(KeyCode::Space),
            frame.spawned matches Some(id) ==> id == old(self).world.next_id,
            frame.despawned@ == shot_world(
                old(self).world@,
                old(self).world.next_id,
                final(self).input,
                delta,
            ).filter(expiring(delta)).map_values(id_of()),
            frame.status@ == vsync_line(final(self).window.present_mode),
            final(self).window.present_mode == present_mode_after(
                old(self).window.present_mode,
                final(self).input,
            ),
            final(self).overlay.text_color == text_color_after(
                old(self).overlay.text_color,
                final(self).input,
            ),
            final(self).overlay.font_size == font_size_after(
                old(self).overlay.font_size as int,
                final(self).input,
            ),
            final(self).overlay.enabled == enabled_after(
                old(self).overlay.enabled,
                final(self).input,
            ),
            final(self).overlay.refresh_interval == old(self).overlay.refresh_interval,
            count_kind(final(self).world@, Kind::Bullet) + frame.despawned@.len() == count_kind(
                old(self).world@,
                Kind::Bullet,
            ) + if frame.spawned is Some {
                1nat
            } else {
                0nat
            },
    {
        self.input.advance(keys);
        let input = self.input;
        move_player(&input, delta, &mut self.world);
        let spawned = shoot_bullet(&input, &mut self.world, delta, &mut self.shoot_state);
        reset_shoot_flag(&mut self.shoot_state);
        customize_config(&input, &mut self.overlay);
        game_setting(&mut self.window, &input);
        let status = display_settings(&self.window);
        let despawned = despawn_bullet(&mut self.world, delta);
        Frame { spawned, despawned, status }
    }
}

} // verus!
