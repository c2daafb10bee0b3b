//! Steering the player, and the camera that can follow it.

use crate::entity::{camera_pos, spec_camera_pos, Entity, Kind};
use crate::input::{ButtonInput, KeyCode};
use crate::math::Velocity;
use crate::world::{
    count_kind, index_of, lemma_count_map_values, lemma_count_one, lemma_count_update,
    lemma_same_ids, World,
};
use vstd::prelude::*;

verus! {

/// The horizontal intent: one for "right", minus one for "left", zero for
/// neither and for both.
pub open spec fn spec_horizontal(input: ButtonInput) -> int {
    (if input.pressed(KeyCode::KeyD) {
        1int
    } else {
        0int
    }) - (if input.pressed(KeyCode::KeyA) {
        1int
    } else {
        0int
    })
}

/// Reads the horizontal intent off the two movement keys.
pub fn horizontal(input: ButtonInput) -> (intent: i8)
    ensures
        intent == spec_horizontal(input),
        -1 <= intent <= 1,
        input.pressed(KeyCode::KeyA) == input.pressed(KeyCode::KeyD) ==> intent == 0,
{
    let right: i8 = if input.pressed(KeyCode::KeyD) {
        1
    } else {
        0
    };
    let left: i8 = if input.pressed(KeyCode::KeyA) {
        1
    } else {
        0
    };
    right - left
}

/// Whether steering acts on `entity`: it is a player with an acceleration,
/// and the intent is not zero.
pub open spec fn is_steered(entity: Entity, intent: int) -> bool {
    entity.kind == Kind::Player && entity.movement_acceleration is Some && intent != 0
}

/// The velocity along x of a steered entity after the frame: what it was,
/// and `intent * acceleration * delta` on top.
pub open spec fn steered_velocity(entity: Entity, intent: int, delta: u64) -> int {
    entity.linear_velocity.x + intent * entity.movement_acceleration->0 * delta
}

/// Whether the new velocity of `entity` can be held.
pub open spec fn can_steer(entity: Entity, intent: int, delta: u64) -> bool {
    is_steered(entity, intent) ==> i128::MIN <= steered_velocity(entity, intent, delta)
        <= i128::MAX
}

/// `entity` after a frame of steering. Nothing but the velocity along x of
/// a steered entity changes.
pub open spec fn steered(entity: Entity, intent: int, delta: u64) -> Entity {
    if is_steered(entity, intent) {
        Entity {
            linear_velocity: Velocity {
                x: steered_velocity(entity, intent, delta) as i128,
                ..entity.linear_velocity
            },
            ..entity
        }
    } else {
        entity
    }
}

/// The steering of one frame, as a change to each entity.
pub open spec fn steering(intent: int, delta: u64) -> spec_fn(Entity) -> Entity {
    |entity: Entity| steered(entity, intent, delta)
}

/// Whether every entity's new velocity can be held.
pub open spec fn can_move_player(entities: Seq<Entity>, input: ButtonInput, delta: u64) -> bool {
    forall|index: int|
        0 <= index < entities.len() ==> can_steer(
            #[trigger] entities[index],
            spec_horizontal(input),
            delta,
        )
}

/// The product of an acceleration and a span of time is a velocity that
/// can be held.
proof fn lemma_gain_fits(acceleration: i64, delta: u64)
    ensures
        i128::MIN <= acceleration * delta <= i128::MAX,
        i128::MIN < -(acceleration * delta) <= i128::MAX,
{
    assert(-0x8000_0000_0000_0000 * 0xffff_ffff_ffff_ffff <= acceleration * delta
        <= 0x7fff_ffff_ffff_ffff * 0xffff_ffff_ffff_ffff) by (nonlinear_arith)
        requires
            -0x8000_0000_0000_0000 <= acceleration <= 0x7fff_ffff_ffff_ffff,
            0 <= delta <= 0xffff_ffff_ffff_ffff,
    ;
}

/// The change of velocity along x that the intent asks of a body with the
/// given acceleration over `delta` nanoseconds.
pub fn velocity_gain(intent: i8, acceleration: i64, delta: u64) -> (gain: i128)
    requires
        -1 <= intent <= 1,
    ensures
        gain == intent * acceleration * delta,
        intent == 0 ==> gain == 0,
{
    proof {
        lemma_gain_fits(acceleration, delta);
        assert(1 * acceleration * delta == acceleration * delta);
        assert((-1) * acceleration * delta == -(acceleration * delta)) by (nonlinear_arith);
        assert(0 * acceleration * delta == 0) by (nonlinear_arith);
    }
    let product: i128 = (acceleration as i128) * (delta as i128);
    if intent == 1 {
        product
    } else if intent == -1 {
        -product
    } else {
        0
    }
}

/// Tests whether `move_player` can run: whether every new velocity can be
/// held.
pub fn movable(key_input: &ButtonInput, delta: u64, world: &World) -> (ok: bool)
    ensures
        ok == can_move_player(world@, *key_input, delta),
{
    let intent = horizontal(*key_input);
    let mut index: usize = 0;
    while index < world.entities.len()
        invariant
            index <= world@.len(),
            intent == spec_horizontal(*key_input),
            -1 <= intent <= 1,
            forall|done: int|
                0 <= done < index ==> can_steer(#[trigger] world@[done], intent as int, delta),
        decreases world@.len() - index,
    {
        let entity = world.entities[index];
        if let Some(acceleration) = entity.movement_acceleration {
            if entity.kind == Kind::Player && intent != 0 {
                let gain = velocity_gain(intent, acceleration, delta);
                if entity.linear_velocity.x.checked_add(gain).is_none() {
                    assert(!can_steer(world@[index as int], intent as int, delta));
                    return false;
                }
            }
        }
        index = index + 1;
    }
    true
}

/// Steers the player for one frame: with exactly one of the two movement
/// keys down, `intent * acceleration * delta` is added to its velocity
/// along x; with none or both down, nothing changes.
pub fn move_player(key_input: &ButtonInput, delta: u64, world: &mut World)
    requires
        can_move_player(old(world)@, *key_input, delta),
    ensures
        final(world)@ == old(world)@.map_values(steering(spec_horizontal(*key_input), delta)),
        final(world).next_id == old(world).next_id,
        spec_horizontal(*key_input) == 0 ==> final(world)@ == old(world)@,
        old(world).wf() ==> final(world).wf(),
        forall|kind: Kind| #[trigger]
            count_kind(final(world)@, kind) == count_kind(old(world)@, kind),
{
    let intent = horizontal(*key_input);
    let ghost change = steering(intent as int, delta);
    let mut index: usize = 0;
    while index < world.entities.len()
        invariant
            index <= world@.len(),
            world@.len() == old(world)@.len(),
            world.next_id == old(world).next_id,
            intent == spec_horizontal(*key_input),
            -1 <= intent <= 1,
            change == steering(intent as int, delta),
            can_move_player(old(world)@, *key_input, delta),
            forall|done: int| 0 <= done < index ==> #[trigger] world@[done] == change(old(world)@[done]),
            forall|rest: int| index <= rest < world@.len() ==> #[trigger] world@[rest] == old(world)@[rest],
        decreases world@.len() - index,
    {
        let mut entity = world.entities[index];
        assert(can_steer(old(world)@[index as int], intent as int, delta));
        if let Some(acceleration) = entity.movement_acceleration {
            if entity.kind == Kind::Player && intent != 0 {
                let gain = velocity_gain(intent, acceleration, delta);
                entity.linear_velocity.x = entity.linear_velocity.x + gain;
                world.entities.set(index, entity);
            }
        }
        index = index + 1;
    }
    proof {
        assert(world@ =~= old(world)@.map_values(change));
        if intent == 0 {
            assert(world@ =~= old(world)@);
        }
        lemma_same_ids(old(world)@, world@, world.next_id as int);
        assert forall|kind: Kind| #[trigger]
            count_kind(world@, kind) == count_kind(old(world)@, kind) by {
            lemma_count_map_values(old(world)@, change, kind);
        }
    }
}

/// Steering moves nobody in the list and changes no kind: there are as many
/// players as before, and a single player is found where it was, at the
/// place where it was.
pub proof fn lemma_steering_keeps_player(entities: Seq<Entity>, intent: int, delta: u64)
    ensures
        forall|kind: Kind| #[trigger]
            count_kind(entities.map_values(steering(intent, delta)), kind) == count_kind(
                entities,
                kind,
            ),
        count_kind(entities, Kind::Player) == 1 ==> index_of(
            entities.map_values(steering(intent, delta)),
            Kind::Player,
        ) == index_of(entities, Kind::Player) && entities.map_values(
            steering(intent, delta),
        )[index_of(entities, Kind::Player)].translation == entities[index_of(
            entities,
            Kind::Player,
        )].translation,
{
    let after = entities.map_values(steering(intent, delta));
    assert forall|kind: Kind| #[trigger] count_kind(after, kind) == count_kind(entities, kind) by {
        lemma_count_map_values(entities, steering(intent, delta), kind);
    }
    if count_kind(entities, Kind::Player) == 1 {
        lemma_count_one(entities, Kind::Player);
        lemma_count_one(after, Kind::Player);
        let at = index_of(after, Kind::Player);
        assert(after[at].kind == Kind::Player);
        assert(entities[at].kind == Kind::Player);
    }
}

/// Whether the camera can be put behind the player: where there is exactly
/// one player and exactly one camera, the player's place and the camera's
/// offset must add up to a place.
pub open spec fn can_follow(entities: Seq<Entity>) -> bool {
    count_kind(entities, Kind::Player) == 1 && count_kind(entities, Kind::Camera) == 1
        ==> entities[index_of(entities, Kind::Player)].translation.can_add(spec_camera_pos())
}

/// The entities after the camera has followed the player. Where there is
/// exactly one player and exactly one camera, the camera stands at the
/// player's place plus the camera's offset and looks at the player;
/// otherwise nothing changes.
pub open spec fn camera_following(entities: Seq<Entity>) -> Seq<Entity> {
    if count_kind(entities, Kind::Player) == 1 && count_kind(entities, Kind::Camera) == 1 {
        let player = entities[index_of(entities, Kind::Player)];
        let at = index_of(entities, Kind::Camera);
        entities.update(
            at,
            Entity {
                translation: player.translation.spec_plus(spec_camera_pos()),
                looking_at: Some(player.translation),
                ..entities[at]
            },
        )
    } else {
        entities
    }
}

/// Tests whether `update_camera_with_player` can run.
pub fn followable(world: &World) -> (ok: bool)
    ensures
        ok == can_follow(world@),
{
    match world.single(Kind::Player) {
        Some(player_at) => match world.single(Kind::Camera) {
            Some(_) => world.entities[player_at].translation.fits_sum(camera_pos()),
            None => true,
        },
        None => true,
    }
}

/// Puts the camera behind the player and turns it to the player. Does
/// nothing unless there is exactly one player and exactly one camera.
pub fn update_camera_with_player(world: &mut World)
    requires
        can_follow(old(world)@),
    ensures
        final(world)@ == camera_following(old(world)@),
        final(world).next_id == old(world).next_id,
        old(world).wf() ==> final(world).wf(),
        forall|kind: Kind| #[trigger]
            count_kind(final(world)@, kind) == count_kind(old(world)@, kind),
{
    if let Some(player_at) = world.single(Kind::Player) {
        if let Some(camera_at) = world.single(Kind::Camera) {
            let player_translation = world.entities[player_at].translation;
            let mut camera = world.entities[camera_at];
            camera.translation = player_translation.plus(camera_pos());
            camera.looking_at = Some(player_translation);
            world.entities.set(camera_at, camera);
            proof {
                lemma_same_ids(old(world)@, world@, world.next_id as int);
                assert forall|kind: Kind| #[trigger]
                    count_kind(world@, kind) == count_kind(old(world)@, kind) by {
                    lemma_count_update(old(world)@, camera_at as int, camera, kind);
                }
            }
        }
    }
}

} // verus!
