//! Firing bullets and taking them out of the world when their time is up.

use crate::config::ShootState;
use crate::entity::{Entity, Kind};
use crate::input::{ButtonInput, KeyCode};
use crate::world::{
    count_kind, ids_below, ids_distinct, index_of, lemma_count_push, lemma_count_zero, World,
};
use vstd::prelude::*;

verus! {

/// Whether a bullet is fired in this frame: the shoot flag is set and the fire
/// key went down.
pub open spec fn fires(shoot_state: ShootState, input: ButtonInput) -> bool {
    shoot_state.is_shoot && input.just_pressed(KeyCode::Space)
}

/// Whether `shoot_bullet` can run. Where a bullet is fired there must be
/// exactly one player to fire it, an identifier left to give, and a place
/// one unit in front of the player.
pub open spec fn can_shoot(
    entities: Seq<Entity>,
    next_id: u64,
    shoot_state: ShootState,
    input: ButtonInput,
) -> bool {
    fires(shoot_state, input) ==> {
        &&& count_kind(entities, Kind::Player) == 1
        &&& next_id < u64::MAX
        &&& Entity::can_fire_from(entities[index_of(entities, Kind::Player)].translation)
    }
}

/// The bullet that the player among `entities` fires in a frame of `delta`
/// nanoseconds, under the identifier `id`.
pub open spec fn fired_bullet(entities: Seq<Entity>, id: u64, delta: u64) -> Entity {
    Entity::spec_bullet(entities[index_of(entities, Kind::Player)].translation, delta).with_id(id)
}

/// The entities after the shoot controller has run.
pub open spec fn after_shooting(
    entities: Seq<Entity>,
    next_id: u64,
    shoot_state: ShootState,
    input: ButtonInput,
    delta: u64,
) -> Seq<Entity> {
    if fires(shoot_state, input) {
        entities.push(fired_bullet(entities, next_id, delta))
    } else {
        entities
    }
}

/// Tests whether `shoot_bullet` can run.
pub fn shootable(key_input: &ButtonInput, world: &World, shoot_state: &ShootState) -> (ok: bool)
    ensures
        ok == can_shoot(world@, world.next_id, *shoot_state, *key_input),
{
    if shoot_state.is_shoot && key_input.just_pressed(KeyCode::Space) {
        match world.single(Kind::Player) {
            Some(player_at) => world.next_id < u64::MAX && world.entities[player_at].translation.z
                >= i64::MIN + 1_000,
            None => false,
        }
    } else {
        true
    }
}

/// Fires one bullet if the shoot flag is set and the fire key went down in this
/// frame, and clears the flag. The bullet starts one unit in front of the
/// player. Returns the bullet's identifier, or `None` where none is fired;
/// then nothing changes.
pub fn shoot_bullet(
    key_input: &ButtonInput,
    world: &mut World,
    delta: u64,
    shoot_state: &mut ShootState,
) -> (spawned: Option<u64>)
    requires
        can_shoot(old(world)@, old(world).next_id, *old(shoot_state), *key_input),
    ensures
        spawned is Some <==> fires(*old(shoot_state), *key_input),
        spawned matches Some(id) ==> id == old(world).next_id,
        final(world)@ == after_shooting(
            old(world)@,
            old(world).next_id,
            *old(shoot_state),
            *key_input,
            delta,
        ),
        final(world).next_id == old(world).next_id + if spawned is Some {
            1int
        } else {
            0int
        },
        final(shoot_state).is_shoot == (old(shoot_state).is_shoot && spawned is None),
        old(world).wf() ==> final(world).wf(),
        forall|kind: Kind| #[trigger]
            count_kind(final(world)@, kind) == count_kind(old(world)@, kind) + if spawned is Some
                && kind == Kind::Bullet {
                1nat
            } else {
                0nat
            },
{
    if shoot_state.is_shoot && key_input.just_pressed(KeyCode::Space) {
        let player_at = world.single(Kind::Player).unwrap();
        let player_translation = world.entities[player_at].translation;
        let id = world.spawn(Entity::bullet(player_translation, delta));
        shoot_state.is_shoot = false;
        Some(id)
    } else {
        None
    }
}

/// Sets the shoot flag again, so that the next frame may fire.
pub fn reset_shoot_flag(shoot_state: &mut ShootState)
    ensures
        final(shoot_state).is_shoot,
{
    shoot_state.is_shoot = true;
}

/// Whether `entity` is a bullet whose time is up after `delta` more
/// nanoseconds.
pub open spec fn expires(entity: Entity, delta: u64) -> bool {
    entity.kind == Kind::Bullet && entity.lifetime is Some && entity.lifetime->0.expires(delta)
}

/// `entity` after `delta` more nanoseconds: `None` for a bullet whose time
/// is up, a bullet with its countdown moved on, or any other entity as it
/// was.
pub open spec fn aged(entity: Entity, delta: u64) -> Option<Entity> {
    if entity.kind == Kind::Bullet && entity.lifetime is Some {
        if entity.lifetime->0.expires(delta) {
            None
        } else {
            Some(Entity { lifetime: Some(entity.lifetime->0.ticked(delta)), ..entity })
        }
    } else {
        Some(entity)
    }
}

/// The passing of `delta` nanoseconds, as a change to each entity.
pub open spec fn aging(delta: u64) -> spec_fn(Entity) -> Option<Entity> {
    |entity: Entity| aged(entity, delta)
}

/// The test "is a bullet whose time is up after `delta` more nanoseconds".
pub open spec fn expiring(delta: u64) -> spec_fn(Entity) -> bool {
    |entity: Entity| expires(entity, delta)
}

/// The identifier of an entity.
pub open spec fn id_of() -> spec_fn(Entity) -> u64 {
    |entity: Entity| entity.id
}

/// Aging removes bullets only: the count of every other kind stays, and
/// the bullets that stay and those whose time is up make up the bullets
/// that were.
pub proof fn lemma_aging_counts(entities: Seq<Entity>, delta: u64, kind: Kind)
    ensures
        kind != Kind::Bullet ==> count_kind(entities.filter_map(aging(delta)), kind)
            == count_kind(entities, kind),
        count_kind(entities.filter_map(aging(delta)), Kind::Bullet) + entities.filter(
            expiring(delta),
        ).len() == count_kind(entities, Kind::Bullet),
    decreases entities.len(),
{
    if entities.len() == 0 {
        lemma_count_zero(entities, kind);
        lemma_count_zero(entities, Kind::Bullet);
        lemma_count_zero(entities.filter_map(aging(delta)), kind);
        lemma_count_zero(entities.filter_map(aging(delta)), Kind::Bullet);
        entities.lemma_filter_len(expiring(delta));
    } else {
        let front = entities.drop_last();
        let last = entities.last();
        lemma_aging_counts(front, delta, kind);
        assert(entities =~= front.push(last));
        front.lemma_filter_push(last, expiring(delta));
        lemma_count_push(front, last, kind);
        lemma_count_push(front, last, Kind::Bullet);
        match aged(last, delta) {
            Some(stays) => {
                assert(entities.filter_map(aging(delta)) =~= front.filter_map(aging(delta)).push(
                    stays,
                ));
                lemma_count_push(front.filter_map(aging(delta)), stays, kind);
                lemma_count_push(front.filter_map(aging(delta)), stays, Kind::Bullet);
            },
            None => {
                assert(entities.filter_map(aging(delta)) =~= front.filter_map(aging(delta)));
            },
        }
    }
}

/// Aging gives out no identifier: each entity that stays keeps its own, so
/// identifiers stay distinct and below their bound.
pub proof fn lemma_aging_ids(entities: Seq<Entity>, delta: u64, bound: int)
    ensures
        forall|place: int|
            0 <= place < entities.filter_map(aging(delta)).len() ==> exists|from: int|
                0 <= from < entities.len() && (#[trigger] entities[from]).id == (
                #[trigger] entities.filter_map(aging(delta))[place]).id,
        ids_below(entities, bound) ==> ids_below(entities.filter_map(aging(delta)), bound),
        ids_distinct(entities) ==> ids_distinct(entities.filter_map(aging(delta))),
    decreases entities.len(),
{
    let after = entities.filter_map(aging(delta));
    if entities.len() > 0 {
        let front = entities.drop_last();
        let last = entities.last();
        let front_after = front.filter_map(aging(delta));
        lemma_aging_ids(front, delta, bound);
        match aged(last, delta) {
            Some(stays) => {
                assert(after =~= front_after.push(stays));
                assert(stays.id == last.id);
            },
            None => {
                assert(after =~= front_after);
            },
        }
        assert forall|place: int| 0 <= place < after.len() implies exists|from: int|
            0 <= from < entities.len() && (#[trigger] entities[from]).id == (
            #[trigger] after[place]).id by {
            if place < front_after.len() {
                let from = choose|from: int|
                    0 <= from < front.len() && (#[trigger] front[from]).id
                        == front_after[place].id;
                assert(entities[from].id == after[place].id);
            } else {
                assert(entities[entities.len() - 1].id == after[place].id);
            }
        }
        if ids_below(entities, bound) {
            assert forall|place: int| 0 <= place < after.len() implies (#[trigger] after[place]).id
                < bound by {
                let from = choose|from: int|
                    0 <= from < entities.len() && (#[trigger] entities[from]).id == after[place].id;
                assert(entities[from].id < bound);
            }
        }
        if ids_distinct(entities) {
            assert(ids_distinct(front)) by {
                assert forall|first: int, second: int|
                    0 <= first < second < front.len() implies (#[trigger] front[first]).id != (
                #[trigger] front[second]).id by {
                    assert(entities[first].id != entities[second].id);
                }
            }
            assert forall|first: int, second: int| 0 <= first < second < after.len() implies (
            #[trigger] after[first]).id != (#[trigger] after[second]).id by {
                if second < front_after.len() {
                    assert(front_after[first].id != front_after[second].id);
                } else {
                    let from = choose|from: int|
                        0 <= from < front.len() && (#[trigger] front[from]).id
                            == front_after[first].id;
                    assert(entities[from].id != entities[entities.len() - 1].id);
                }
            }
        }
    }
}

/// Lets `delta` nanoseconds pass on every bullet's countdown and removes,
/// in the same frame, each bullet whose countdown is over. The other
/// entities stay as they are, in their order. Returns the identifiers of
/// the bullets removed, oldest first.
pub fn despawn_bullet(world: &mut World, delta: u64) -> (removed: Vec<u64>)
    ensures
        final(world)@ == old(world)@.filter_map(aging(delta)),
        removed@ == old(world)@.filter(expiring(delta)).map_values(id_of()),
        final(world).next_id == old(world).next_id,
        old(world).wf() ==> final(world).wf(),
        forall|kind: Kind|
            kind != Kind::Bullet ==> #[trigger] count_kind(final(world)@, kind) == count_kind(
                old(world)@,
                kind,
            ),
        count_kind(final(world)@, Kind::Bullet) + removed@.len() == count_kind(
            old(world)@,
            Kind::Bullet,
        ),
{
    let ghost before = world@;
    let mut kept: Vec<Entity> = Vec::new();
    let mut removed: Vec<u64> = Vec::new();
    let mut index: usize = 0;
    proof {
        assert(before.take(0) =~= Seq::<Entity>::empty());
        assert(before.take(0).filter(expiring(delta)) =~= Seq::<Entity>::empty()) by {
            before.take(0).lemma_filter_len(expiring(delta));
        }
        assert(removed@ =~= before.take(0).filter(expiring(delta)).map_values(id_of()));
    }
    while index < world.entities.len()
        invariant
            index <= before.len(),
            world@ == before,
            kept@ == before.take(index as int).filter_map(aging(delta)),
            removed@ == before.take(index as int).filter(expiring(delta)).map_values(id_of()),
        decreases before.len() - index,
    {
        let mut entity = world.entities[index];
        let mut expired = false;
        if entity.kind == Kind::Bullet {
            if let Some(mut lifetime) = entity.lifetime {
                expired = lifetime.tick(delta);
                entity.lifetime = Some(lifetime);
            }
        }
        if expired {
            removed.push(entity.id);
        } else {
            kept.push(entity);
        }
        proof {
            let current = before[index as int];
            let prefix = before.take(index as int);
            assert(before.take(index as int + 1) =~= prefix.push(current));
            before.lemma_filter_map_take_succ(aging(delta), index as int);
            prefix.lemma_filter_push(current, expiring(delta));
            assert(expired == expires(current, delta));
            assert(aging(delta)(current) == aged(current, delta));
            if !expired {
                assert(aged(current, delta) == Some(entity));
            }
            assert(kept@ =~= before.take(index as int + 1).filter_map(aging(delta)));
            assert(removed@ =~= before.take(index as int + 1).filter(
                expiring(delta),
            ).map_values(id_of()));
        }
        index = index + 1;
    }
    proof {
        assert(before.take(index as int) =~= before);
        lemma_aging_ids(before, delta, world.next_id as int);
        assert forall|kind: Kind| kind != Kind::Bullet implies #[trigger] count_kind(kept@, kind)
            == count_kind(before, kind) by {
            lemma_aging_counts(before, delta, kind);
        }
        lemma_aging_counts(before, delta, Kind::Bullet);
    }
    world.entities = kept;
    removed
}

} // verus!
