//! What holds of the game over any run of frames.
//!
//! A run is the sequence of keyboards, one for each frame, that follows a
//! starting input. The frame's rules are the spec functions that the
//! systems' contracts are stated with; the lemmas here say what they add
//! up to.

use crate::bullet::{aged, fired_bullet, fires, lemma_aging_counts};
use crate::config::{OverlayColor, PresentMode, ShootState};
use crate::entity::{Entity, Kind};
use crate::game::{after_frame, has_scene, shot_world, steered_world};
use crate::input::{ButtonInput, KeyCode, Keys};
use crate::lifetime::{Lifetime, BULLET_DESPAWN_TIME};
use crate::math::Vec3;
use crate::player::{lemma_steering_keeps_player, spec_horizontal};
use crate::settings::{font_size_after, present_mode_after, text_color_after, vsync_chord};
use crate::startup::{scene, walls};
use crate::world::{count_kind, lemma_count_push, lemma_count_zero};
use vstd::prelude::*;

verus! {

/// The input in the last frame of a run that follows `start`.
pub open spec fn input_after(start: ButtonInput, frames: Seq<Keys>) -> ButtonInput
    decreases frames.len(),
{
    if frames.len() == 0 {
        start
    } else {
        input_after(start, frames.drop_last()).next(frames.last())
    }
}

/// In how many frames of the run `key` went down.
pub open spec fn presses(start: ButtonInput, frames: Seq<Keys>, key: KeyCode) -> nat
    decreases frames.len(),
{
    if frames.len() == 0 {
        0
    } else {
        presses(start, frames.drop_last(), key) + if input_after(start, frames).just_pressed(key) {
            1nat
        } else {
            0nat
        }
    }
}

/// In how many frames of the run the vsync chord was struck.
pub open spec fn chords(start: ButtonInput, frames: Seq<Keys>) -> nat
    decreases frames.len(),
{
    if frames.len() == 0 {
        0
    } else {
        chords(start, frames.drop_last()) + if vsync_chord(input_after(start, frames)) {
            1nat
        } else {
            0nat
        }
    }
}

/// The present mode at the end of the run.
pub open spec fn present_mode_after_frames(
    mode: PresentMode,
    start: ButtonInput,
    frames: Seq<Keys>,
) -> PresentMode
    decreases frames.len(),
{
    if frames.len() == 0 {
        mode
    } else {
        present_mode_after(
            present_mode_after_frames(mode, start, frames.drop_last()),
            input_after(start, frames),
        )
    }
}

/// The overlay's colour at the end of the run.
pub open spec fn text_color_after_frames(
    color: OverlayColor,
    start: ButtonInput,
    frames: Seq<Keys>,
) -> OverlayColor
    decreases frames.len(),
{
    if frames.len() == 0 {
        color
    } else {
        text_color_after(
            text_color_after_frames(color, start, frames.drop_last()),
            input_after(start, frames),
        )
    }
}

/// The overlay's font size at the end of the run.
pub open spec fn font_size_after_frames(size: int, start: ButtonInput, frames: Seq<Keys>) -> int
    decreases frames.len(),
{
    if frames.len() == 0 {
        size
    } else {
        font_size_after(
            font_size_after_frames(size, start, frames.drop_last()),
            input_after(start, frames),
        )
    }
}

/// How many bullets are fired over the run. The shoot flag is `is_shoot` when
/// the run starts and is set again at the end of every frame.
pub open spec fn shots(is_shoot: bool, start: ButtonInput, frames: Seq<Keys>) -> nat
    decreases frames.len(),
{
    if frames.len() == 0 {
        0
    } else {
        let state = ShootState { is_shoot: frames.len() > 1 || is_shoot };
        shots(is_shoot, start, frames.drop_last()) + if fires(state, input_after(start, frames)) {
            1nat
        } else {
            0nat
        }
    }
}

/// The sum of the frame times of a run, in nanoseconds.
pub open spec fn total(deltas: Seq<u64>) -> int
    decreases deltas.len(),
{
    if deltas.len() == 0 {
        0
    } else {
        total(deltas.drop_last()) + deltas.last()
    }
}

/// `entity` after frames of the given lengths: `None` once it has been
/// removed.
pub open spec fn aged_through(entity: Entity, deltas: Seq<u64>) -> Option<Entity>
    decreases deltas.len(),
{
    if deltas.len() == 0 {
        Some(entity)
    } else {
        match aged_through(entity, deltas.drop_last()) {
            Some(still) => aged(still, deltas.last()),
            None => None,
        }
    }
}

/// The entities at the end of a run of frames, the last of which is
/// `frames.last()` and took `deltas.last()` nanoseconds, together with the
/// identifier that the next bullet gets.
pub open spec fn world_after_frames(
    entities: Seq<Entity>,
    next_id: u64,
    start: ButtonInput,
    frames: Seq<Keys>,
    deltas: Seq<u64>,
) -> (Seq<Entity>, u64)
    decreases frames.len(),
{
    if frames.len() == 0 {
        (entities, next_id)
    } else {
        let before = world_after_frames(
            entities,
            next_id,
            start,
            frames.drop_last(),
            deltas.drop_last(),
        );
        let input = input_after(start, frames);
        (
            after_frame(before.0, before.1, input, deltas.last()),
            if input.just_pressed(KeyCode::Space) {
                (before.1 + 1) as u64
            } else {
                before.1
            },
        )
    }
}

/// After startup the world holds exactly one player, one ground and one
/// camera, exactly three walls, and no bullet.
pub proof fn lemma_startup_makes_scene(first_id: u64, first_wall_id: u64)
    ensures
        has_scene(scene(first_id) + walls(first_wall_id)),
        count_kind(scene(first_id) + walls(first_wall_id), Kind::Bullet) == 0,
{
    let all = scene(first_id) + walls(first_wall_id);
    let empty = Seq::<Entity>::empty();
    let s1 = empty.push(all[0]);
    let s2 = s1.push(all[1]);
    let s3 = s2.push(all[2]);
    let s4 = s3.push(all[3]);
    let s5 = s4.push(all[4]);
    let s6 = s5.push(all[5]);
    let s7 = s6.push(all[6]);
    let s8 = s7.push(all[7]);
    assert(s8 =~= all);
    assert forall|kind: Kind| #[trigger]
        count_kind(all, kind) == match kind {
            Kind::Camera | Kind::Light | Kind::Player | Kind::Ground | Kind::Sphere => 1nat,
            Kind::Wall => 3nat,
            Kind::Bullet => 0nat,
        } by {
        lemma_count_zero(empty, kind);
        lemma_count_push(empty, all[0], kind);
        lemma_count_push(s1, all[1], kind);
        lemma_count_push(s2, all[2], kind);
        lemma_count_push(s3, all[3], kind);
        lemma_count_push(s4, all[4], kind);
        lemma_count_push(s5, all[5], kind);
        lemma_count_push(s6, all[6], kind);
        lemma_count_push(s7, all[7], kind);
    }
}

/// A frame spawns and removes bullets only: the count of every other kind
/// is the same after the frame as before it.
pub proof fn lemma_frame_keeps_kinds(
    entities: Seq<Entity>,
    next_id: u64,
    input: ButtonInput,
    delta: u64,
    kind: Kind,
)
    requires
        kind != Kind::Bullet,
    ensures
        count_kind(after_frame(entities, next_id, input, delta), kind) == count_kind(
            entities,
            kind,
        ),
{
    let steered = steered_world(entities, input, delta);
    let shot = shot_world(entities, next_id, input, delta);
    lemma_steering_keeps_player(entities, spec_horizontal(input), delta);
    assert(count_kind(steered, kind) == count_kind(entities, kind));
    if fires(ShootState { is_shoot: true }, input) {
        lemma_count_push(steered, fired_bullet(steered, next_id, delta), kind);
    }
    lemma_aging_counts(shot, delta, kind);
}

/// In every frame exactly one player, one ground and one camera exist, and
/// exactly three walls: what startup has put in place, every frame keeps.
pub proof fn lemma_frame_keeps_scene(
    entities: Seq<Entity>,
    next_id: u64,
    input: ButtonInput,
    delta: u64,
)
    requires
        has_scene(entities),
    ensures
        has_scene(after_frame(entities, next_id, input, delta)),
{
    lemma_frame_keeps_kinds(entities, next_id, input, delta, Kind::Player);
    lemma_frame_keeps_kinds(entities, next_id, input, delta, Kind::Ground);
    lemma_frame_keeps_kinds(entities, next_id, input, delta, Kind::Camera);
    lemma_frame_keeps_kinds(entities, next_id, input, delta, Kind::Wall);
}

/// Through every frame of every run exactly one player, one ground and
/// one camera exist, and exactly three walls.
pub proof fn lemma_scene_stays(
    entities: Seq<Entity>,
    next_id: u64,
    start: ButtonInput,
    frames: Seq<Keys>,
    deltas: Seq<u64>,
)
    requires
        has_scene(entities),
        frames.len() == deltas.len(),
    ensures
        has_scene(world_after_frames(entities, next_id, start, frames, deltas).0),
    decreases frames.len(),
{
    if frames.len() > 0 {
        lemma_scene_stays(entities, next_id, start, frames.drop_last(), deltas.drop_last());
        let before = world_after_frames(
            entities,
            next_id,
            start,
            frames.drop_last(),
            deltas.drop_last(),
        );
        lemma_frame_keeps_scene(before.0, before.1, input_after(start, frames), deltas.last());
    }
}

/// With both movement keys down, or with neither, steering changes
/// nothing: no entity's velocity, and nothing else.
pub proof fn lemma_opposed_keys_cancel(entities: Seq<Entity>, input: ButtonInput, delta: u64)
    requires
        input.pressed(KeyCode::KeyA) == input.pressed(KeyCode::KeyD),
    ensures
        spec_horizontal(input) == 0,
        steered_world(entities, input, delta) == entities,
{
    assert(steered_world(entities, input, delta) =~= entities);
}

/// With the shoot flag set when the run starts, one bullet is fired for each
/// frame in which the fire key went down, and none in any other frame.
pub proof fn lemma_one_shot_per_press(start: ButtonInput, frames: Seq<Keys>)
    ensures
        shots(true, start, frames) == presses(start, frames, KeyCode::Space),
    decreases frames.len(),
{
    if frames.len() > 0 {
        lemma_one_shot_per_press(start, frames.drop_last());
    }
}

/// The input at the end of a run of at least one frame: the keys of the
/// last frame against those of the frame before it.
pub proof fn lemma_input_after(start: ButtonInput, frames: Seq<Keys>)
    requires
        frames.len() > 0,
    ensures
        input_after(start, frames).current == frames.last(),
        input_after(start, frames).previous == if frames.len() == 1 {
            start.current
        } else {
            frames[frames.len() - 2]
        },
    decreases frames.len(),
{
    let front = frames.drop_last();
    if front.len() > 0 {
        lemma_input_after(start, front);
        assert(front.last() == frames[frames.len() - 2]);
    } else {
        assert(input_after(start, front) == start);
    }
}

/// The fire key goes down once and is then held: exactly one bullet is
/// fired, however many frames the key stays down.
pub proof fn lemma_press_and_hold_fires_once(start: ButtonInput, frames: Seq<Keys>)
    requires
        !start.current.holds(KeyCode::Space),
        frames.len() > 0,
        forall|index: int| 0 <= index < frames.len() ==> (#[trigger] frames[index]).holds(
            KeyCode::Space,
        ),
    ensures
        shots(true, start, frames) == 1,
    decreases frames.len(),
{
    lemma_input_after(start, frames);
    let front = frames.drop_last();
    if front.len() > 0 {
        assert forall|index: int| 0 <= index < front.len() implies (#[trigger] front[index]).holds(
            KeyCode::Space,
        ) by {
            assert(front[index] == frames[index]);
        }
        lemma_press_and_hold_fires_once(start, front);
        assert(frames[frames.len() - 2].holds(KeyCode::Space));
    } else {
        assert(shots(true, start, front) == 0);
    }
}

/// While the fire key stays down from before the run, no bullet is fired.
pub proof fn lemma_held_key_fires_nothing(start: ButtonInput, frames: Seq<Keys>)
    requires
        start.current.holds(KeyCode::Space),
        forall|index: int| 0 <= index < frames.len() ==> (#[trigger] frames[index]).holds(
            KeyCode::Space,
        ),
    ensures
        shots(true, start, frames) == 0,
    decreases frames.len(),
{
    if frames.len() > 0 {
        lemma_input_after(start, frames);
        let front = frames.drop_last();
        assert forall|index: int| 0 <= index < front.len() implies (#[trigger] front[index]).holds(
            KeyCode::Space,
        ) by {
            assert(front[index] == frames[index]);
        }
        lemma_held_key_fires_nothing(start, front);
        if front.len() > 0 {
            assert(frames[frames.len() - 2].holds(KeyCode::Space));
        }
    }
}

/// A bullet stays in the world as long as the frame times since it was
/// fired add up to less than its duration, and is removed in the frame in
/// which they reach it: no earlier, no later. While it stays, its
/// countdown shows exactly the time gathered, and nothing else about it
/// changes.
pub proof fn lemma_bullet_removed_on_time(entity: Entity, deltas: Seq<u64>)
    requires
        entity.kind == Kind::Bullet,
        entity.lifetime is Some,
        entity.lifetime->0.elapsed < entity.lifetime->0.duration,
    ensures
        aged_through(entity, deltas) is Some <==> entity.lifetime->0.elapsed + total(deltas)
            < entity.lifetime->0.duration,
        aged_through(entity, deltas) matches Some(still) ==> still == (Entity {
            lifetime: Some(
                Lifetime {
                    elapsed: (entity.lifetime->0.elapsed + total(deltas)) as u64,
                    duration: entity.lifetime->0.duration,
                },
            ),
            ..entity
        }),
        total(deltas) >= 0,
    decreases deltas.len(),
{
    if deltas.len() > 0 {
        lemma_bullet_removed_on_time(entity, deltas.drop_last());
    }
}

/// A bullet, once fired, is in the world after the frames `deltas` exactly
/// when they add up to less than three seconds.
pub proof fn lemma_bullet_lives_three_seconds(from: Vec3, fired_in: u64, id: u64, deltas: Seq<u64>)
    ensures
        aged_through(Entity::spec_bullet(from, fired_in).with_id(id), deltas) is Some <==> total(
            deltas,
        ) < BULLET_DESPAWN_TIME,
{
    lemma_bullet_removed_on_time(Entity::spec_bullet(from, fired_in).with_id(id), deltas);
}

/// An entity that is no bullet is never removed by the passing of time,
/// and never changed by it.
pub proof fn lemma_only_bullets_expire(entity: Entity, deltas: Seq<u64>)
    requires
        entity.kind != Kind::Bullet,
    ensures
        aged_through(entity, deltas) == Some(entity),
    decreases deltas.len(),
{
    if deltas.len() > 0 {
        lemma_only_bullets_expire(entity, deltas.drop_last());
    }
}

/// Each stroke of the vsync chord switches the present mode to the other
/// of its two values; a frame without the chord leaves it.
pub proof fn lemma_chord_alternates(mode: PresentMode, input: ButtonInput)
    ensures
        vsync_chord(input) ==> present_mode_after(mode, input) != mode,
        vsync_chord(input) ==> present_mode_after(present_mode_after(mode, input), input) == mode,
        !vsync_chord(input) ==> present_mode_after(mode, input) == mode,
{
}

/// After a run the present mode is the one it started with if the chord was
/// struck an even number of times, and the other one if odd.
pub proof fn lemma_present_mode_parity(mode: PresentMode, start: ButtonInput, frames: Seq<Keys>)
    ensures
        present_mode_after_frames(mode, start, frames) == if chords(start, frames) % 2 == 0 {
            mode
        } else {
            mode.flipped()
        },
    decreases frames.len(),
{
    if frames.len() > 0 {
        lemma_present_mode_parity(mode, start, frames.drop_last());
    }
}

/// After a run the overlay's colour is the one it started with if the
/// colour key went down an even number of times, and the other one if odd.
pub proof fn lemma_text_color_parity(color: OverlayColor, start: ButtonInput, frames: Seq<Keys>)
    ensures
        text_color_after_frames(color, start, frames) == if presses(start, frames, KeyCode::Digit1)
            % 2 == 0 {
            color
        } else {
            color.flipped()
        },
    decreases frames.len(),
{
    if frames.len() > 0 {
        lemma_text_color_parity(color, start, frames.drop_last());
    }
}

/// After a run the font size is the size it started with, plus two points
/// for each time the grow key went down, minus two for each time the
/// shrink key did. Nothing bounds it: it may reach zero and go below.
pub proof fn lemma_font_size_counts_presses(size: int, start: ButtonInput, frames: Seq<Keys>)
    ensures
        font_size_after_frames(size, start, frames) == size + 2 * (presses(
            start,
            frames,
            KeyCode::Digit3,
        ) - presses(start, frames, KeyCode::Digit2)),
    decreases frames.len(),
{
    if frames.len() > 0 {
        lemma_font_size_counts_presses(size, start, frames.drop_last());
    }
}

} // verus!
