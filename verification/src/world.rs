//! The entity store: every entity of the world in the order in which it was
//! spawned, each under an identifier of its own.

use crate::entity::{Entity, Kind};
use crate::math::{Vec3, Velocity};
use vstd::prelude::*;

verus! {

/// The test "is of kind `kind`".
pub open spec fn is_kind(kind: Kind) -> spec_fn(Entity) -> bool {
    |entity: Entity| entity.kind == kind
}

/// How many entities of `entities` are of kind `kind`.
pub open spec fn count_kind(entities: Seq<Entity>, kind: Kind) -> nat {
    entities.filter(is_kind(kind)).len()
}

/// Whether `index` is the place of the one and only entity of kind `kind`.
pub open spec fn is_single(entities: Seq<Entity>, kind: Kind, index: int) -> bool {
    &&& 0 <= index < entities.len()
    &&& entities[index].kind == kind
    &&& forall|other: int|
        0 <= other < entities.len() && (#[trigger] entities[other]).kind == kind ==> other == index
}

/// The place of an entity of kind `kind`; the place of the only one where
/// there is exactly one.
pub open spec fn index_of(entities: Seq<Entity>, kind: Kind) -> int {
    choose|index: int| 0 <= index < entities.len() && (#[trigger] entities[index]).kind == kind
}

/// The place of the entity with identifier `id`, where there is one.
pub open spec fn index_of_id(entities: Seq<Entity>, id: u64) -> int {
    choose|index: int| 0 <= index < entities.len() && (#[trigger] entities[index]).id == id
}

/// Whether some entity carries the identifier `id`.
pub open spec fn has_id(entities: Seq<Entity>, id: u64) -> bool {
    exists|index: int| 0 <= index < entities.len() && (#[trigger] entities[index]).id == id
}

/// Whether every identifier in use is below `bound`.
pub open spec fn ids_below(entities: Seq<Entity>, bound: int) -> bool {
    forall|index: int| 0 <= index < entities.len() ==> (#[trigger] entities[index]).id < bound
}

/// Whether no two entities share an identifier.
pub open spec fn ids_distinct(entities: Seq<Entity>) -> bool {
    forall|first: int, second: int|
        0 <= first < second < entities.len() ==> (#[trigger] entities[first]).id != (
        #[trigger] entities[second]).id
}

/// One more entity raises the count of its own kind by one and no other.
pub proof fn lemma_count_push(entities: Seq<Entity>, entity: Entity, kind: Kind)
    ensures
        count_kind(entities.push(entity), kind) == count_kind(entities, kind) + if entity.kind
            == kind {
            1nat
        } else {
            0nat
        },
{
    entities.lemma_filter_len_push(is_kind(kind), entity);
}

/// The count over the first `upto + 1` entities, from the count over the
/// first `upto`.
pub proof fn lemma_count_take(entities: Seq<Entity>, kind: Kind, upto: int)
    requires
        0 <= upto < entities.len(),
    ensures
        count_kind(entities.take(upto + 1), kind) == count_kind(entities.take(upto), kind)
            + if entities[upto].kind == kind {
            1nat
        } else {
            0nat
        },
{
    assert(entities.take(upto + 1) =~= entities.take(upto).push(entities[upto]));
    lemma_count_push(entities.take(upto), entities[upto], kind);
}

/// A kind of which no entity is found has the count zero, and the other way
/// round.
pub proof fn lemma_count_zero(entities: Seq<Entity>, kind: Kind)
    ensures
        count_kind(entities, kind) == 0 <==> forall|index: int|
            0 <= index < entities.len() ==> (#[trigger] entities[index]).kind != kind,
    decreases entities.len(),
{
    if entities.len() == 0 {
        assert(entities.filter(is_kind(kind)).len() <= entities.len()) by {
            entities.lemma_filter_len(is_kind(kind));
        }
    } else {
        let front = entities.drop_last();
        lemma_count_zero(front, kind);
        assert(entities =~= front.push(entities.last()));
        lemma_count_push(front, entities.last(), kind);
        if count_kind(entities, kind) == 0 {
            assert forall|index: int| 0 <= index < entities.len() implies (
            #[trigger] entities[index]).kind != kind by {
                if index < front.len() {
                    assert(front[index].kind != kind);
                }
            }
        } else if entities.last().kind != kind {
            let index = choose|index: int|
                0 <= index < front.len() && (#[trigger] front[index]).kind == kind;
            assert(entities[index].kind == kind);
        }
    }
}

/// The count of a kind is one exactly where one place holds the only entity
/// of that kind.
pub proof fn lemma_count_one(entities: Seq<Entity>, kind: Kind)
    ensures
        count_kind(entities, kind) == 1 <==> exists|index: int|
            is_single(entities, kind, index),
        count_kind(entities, kind) == 1 ==> is_single(entities, kind, index_of(entities, kind)),
    decreases entities.len(),
{
    if entities.len() == 0 {
        assert(entities.filter(is_kind(kind)).len() <= entities.len()) by {
            entities.lemma_filter_len(is_kind(kind));
        }
    } else {
        let front = entities.drop_last();
        let last = entities.last();
        lemma_count_one(front, kind);
        lemma_count_zero(front, kind);
        assert(entities =~= front.push(last));
        lemma_count_push(front, last, kind);
        if count_kind(entities, kind) == 1 {
            if last.kind == kind {
                assert(is_single(entities, kind, entities.len() - 1)) by {
                    assert forall|other: int|
                        0 <= other < entities.len() && (#[trigger] entities[other]).kind
                            == kind implies other == entities.len() - 1 by {
                        if other < front.len() {
                            assert(front[other].kind != kind);
                        }
                    }
                }
            } else {
                let index = choose|index: int| is_single(front, kind, index);
                assert(is_single(entities, kind, index)) by {
                    assert(entities[index] == front[index]);
                    assert forall|other: int|
                        0 <= other < entities.len() && (#[trigger] entities[other]).kind
                            == kind implies other == index by {
                        if other < front.len() {
                            assert(front[other].kind == kind);
                        }
                    }
                }
            }
            let found = choose|index: int| is_single(entities, kind, index);
            assert(entities[found].kind == kind);
            assert(entities[index_of(entities, kind)].kind == kind);
        }
        if exists|index: int| is_single(entities, kind, index) {
            let index = choose|index: int| is_single(entities, kind, index);
            if last.kind == kind {
                assert(index == entities.len() - 1);
                assert forall|other: int| 0 <= other < front.len() implies (
                #[trigger] front[other]).kind != kind by {
                    assert(entities[other] == front[other]);
                }
            } else {
                assert(index < front.len());
                assert(is_single(front, kind, index)) by {
                    assert(entities[index] == front[index]);
                    assert forall|other: int|
                        0 <= other < front.len() && (#[trigger] front[other]).kind
                            == kind implies other == index by {
                        assert(entities[other] == front[other]);
                    }
                }
            }
        }
    }
}

/// A change that keeps each entity's kind keeps the count of every kind.
pub proof fn lemma_count_map_values(
    entities: Seq<Entity>,
    change: spec_fn(Entity) -> Entity,
    kind: Kind,
)
    requires
        forall|entity: Entity| (#[trigger] change(entity)).kind == entity.kind,
    ensures
        count_kind(entities.map_values(change), kind) == count_kind(entities, kind),
    decreases entities.len(),
{
    if entities.len() == 0 {
        assert(entities.map_values(change) =~= entities);
    } else {
        let front = entities.drop_last();
        let last = entities.last();
        lemma_count_map_values(front, change, kind);
        assert(entities =~= front.push(last));
        assert(entities.map_values(change) =~= front.map_values(change).push(change(last)));
        lemma_count_push(front, last, kind);
        lemma_count_push(front.map_values(change), change(last), kind);
    }
}

/// Putting an entity in the place of one of the same kind keeps the count
/// of every kind.
pub proof fn lemma_count_update(entities: Seq<Entity>, at: int, entity: Entity, kind: Kind)
    requires
        0 <= at < entities.len(),
        entity.kind == entities[at].kind,
    ensures
        count_kind(entities.update(at, entity), kind) == count_kind(entities, kind),
    decreases entities.len(),
{
    let front = entities.drop_last();
    let last = entities.last();
    assert(entities =~= front.push(last));
    lemma_count_push(front, last, kind);
    if at == entities.len() - 1 {
        assert(entities.update(at, entity) =~= front.push(entity));
        lemma_count_push(front, entity, kind);
    } else {
        lemma_count_update(front, at, entity, kind);
        assert(entities.update(at, entity) =~= front.update(at, entity).push(last));
        lemma_count_push(front.update(at, entity), last, kind);
    }
}

/// Whether `after` holds the entities of `before` under the same
/// identifiers, place by place.
pub open spec fn same_ids(before: Seq<Entity>, after: Seq<Entity>) -> bool {
    &&& after.len() == before.len()
    &&& forall|index: int|
        0 <= index < before.len() ==> (#[trigger] after[index]).id == (#[trigger] before[index]).id
}

/// Identifiers that stay in place stay distinct and below their bound.
pub proof fn lemma_same_ids(before: Seq<Entity>, after: Seq<Entity>, bound: int)
    requires
        same_ids(before, after),
    ensures
        ids_below(before, bound) ==> ids_below(after, bound),
        ids_distinct(before) ==> ids_distinct(after),
{
    if ids_below(before, bound) {
        assert forall|index: int| 0 <= index < after.len() implies (#[trigger] after[index]).id
            < bound by {
            assert(before[index].id < bound);
        }
    }
    if ids_distinct(before) {
        assert forall|first: int, second: int| 0 <= first < second < after.len() implies (
        #[trigger] after[first]).id != (#[trigger] after[second]).id by {
            assert(before[first].id != before[second].id);
        }
    }
}

/// Every entity of the world, with the next identifier to give out.
#[derive(Debug)]
pub struct World {
    /// The entities, oldest first.
    pub entities: Vec<Entity>,
    /// The identifier that the next spawned entity gets.
    pub next_id: u64,
}

impl View for World {
    type V = Seq<Entity>;

    open spec fn view(&self) -> Seq<Entity> {
        self.entities@
    }
}

impl World {
    /// Identifiers are given out once: all in use are below `next_id`, and
    /// no two entities share one.
    pub open spec fn wf(&self) -> bool {
        &&& ids_below(self@, self.next_id as int)
        &&& ids_distinct(self@)
    }

    /// An empty world.
    pub fn new() -> (world: World)
        ensures
            world@ == Seq::<Entity>::empty(),
            world.next_id == 0,
            world.wf(),
    {
        World { entities: Vec::new(), next_id: 0 }
    }

    /// The number of entities.
    pub fn len(&self) -> (len: usize)
        ensures
            len == self@.len(),
    {
        self.entities.len()
    }

    /// The entity at place `index`.
    pub fn get(&self, index: usize) -> (entity: Option<Entity>)
        ensures
            entity == if index < self@.len() {
                Some(self@[index as int])
            } else {
                None
            },
    {
        if index < self.entities.len() {
            Some(self.entities[index])
        } else {
            None
        }
    }

    /// Adds `entity` to the world under a fresh identifier, which is
    /// returned.
    pub fn spawn(&mut self, entity: Entity) -> (id: u64)
        requires
            old(self).next_id < u64::MAX,
        ensures
            id == old(self).next_id,
            final(self).next_id == id + 1,
            final(self)@ == old(self)@.push(entity.with_id(id)),
            old(self).wf() ==> final(self).wf(),
            forall|kind: Kind| #[trigger]
                count_kind(final(self)@, kind) == count_kind(old(self)@, kind) + if entity.kind
                    == kind {
                    1nat
                } else {
                    0nat
                },
    {
        let id = self.next_id;
        let mut spawned = entity;
        spawned.id = id;
        self.entities.push(spawned);
        self.next_id = id + 1;
        proof {
            assert(spawned == entity.with_id(id));
            assert forall|kind: Kind| #[trigger]
                count_kind(self@, kind) == count_kind(old(self)@, kind) + if entity.kind == kind {
                    1nat
                } else {
                    0nat
                } by {
                lemma_count_push(old(self)@, spawned, kind);
            }
        }
        id
    }

    /// Counts the entities of kind `kind`.
    pub fn count(&self, kind: Kind) -> (count: usize)
        ensures
            count == count_kind(self@, kind),
    {
        let mut count: usize = 0;
        let mut index: usize = 0;
        proof {
            assert(self@.take(0) =~= Seq::<Entity>::empty());
            lemma_count_zero(self@.take(0), kind);
        }
        while index < self.entities.len()
            invariant
                index <= self@.len(),
                count == count_kind(self@.take(index as int), kind),
                count <= index,
            decreases self@.len() - index,
        {
            proof {
                lemma_count_take(self@, kind, index as int);
            }
            if self.entities[index].kind == kind {
                count = count + 1;
            }
            index = index + 1;
        }
        proof {
            assert(self@.take(index as int) =~= self@);
        }
        count
    }

    /// The place of the only entity of kind `kind`; `None` where there is
    /// none of that kind, or more than one.
    pub fn single(&self, kind: Kind) -> (place: Option<usize>)
        ensures
            place is Some <==> count_kind(self@, kind) == 1,
            place matches Some(index) ==> is_single(self@, kind, index as int) && index
                == index_of(self@, kind),
    {
        let mut found: Option<usize> = None;
        let mut count: usize = 0;
        let mut index: usize = 0;
        proof {
            assert(self@.take(0) =~= Seq::<Entity>::empty());
            lemma_count_zero(self@.take(0), kind);
        }
        while index < self.entities.len()
            invariant
                index <= self@.len(),
                count == count_kind(self@.take(index as int), kind),
                count <= index,
                count == 0 ==> found is None,
                count >= 1 ==> found is Some,
                found matches Some(first) ==> first < index && self@[first as int].kind == kind,
            decreases self@.len() - index,
        {
            proof {
                lemma_count_take(self@, kind, index as int);
            }
            if self.entities[index].kind == kind {
                if count == 0 {
                    found = Some(index);
                }
                count = count + 1;
            }
            index = index + 1;
        }
        proof {
            assert(self@.take(index as int) =~= self@);
            lemma_count_one(self@, kind);
        }
        if count == 1 {
            found
        } else {
            None
        }
    }

    /// The place of the entity with identifier `id`, where there is one.
    pub fn find(&self, id: u64) -> (place: Option<usize>)
        ensures
            place is Some <==> has_id(self@, id),
            place matches Some(index) ==> {
                &&& index < self@.len()
                &&& self@[index as int].id == id
                &&& forall|before: int| 0 <= before < index ==> (#[trigger] self@[before]).id != id
            },
            self.wf() ==> (place matches Some(index) ==> index == index_of_id(self@, id)),
    {
        let mut index: usize = 0;
        while index < self.entities.len()
            invariant
                index <= self@.len(),
                forall|before: int| 0 <= before < index ==> (#[trigger] self@[before]).id != id,
            decreases self@.len() - index,
        {
            if self.entities[index].id == id {
                proof {
                    if self.wf() {
                        let chosen = index_of_id(self@, id);
                        assert(self@[index as int].id == id);
                        assert(self@[chosen].id == id);
                        if chosen < index {
                            assert(false);
                        } else if chosen > index {
                            assert(self@[index as int].id != self@[chosen].id);
                        }
                    }
                }
                return Some(index);
            }
            index = index + 1;
        }
        None
    }

    /// Sets the place of the entity with identifier `id`, as the physics
    /// reports it. Returns whether there is such an entity.
    pub fn set_translation(&mut self, id: u64, translation: Vec3) -> (found: bool)
        ensures
            found == has_id(old(self)@, id),
            final(self).next_id == old(self).next_id,
            final(self)@ == old(self)@.map_values(
                |entity: Entity|
                    if entity.id == id {
                        Entity { translation, ..entity }
                    } else {
                        entity
                    },
            ),
            old(self).wf() ==> final(self).wf(),
            forall|kind: Kind| #[trigger]
                count_kind(final(self)@, kind) == count_kind(old(self)@, kind),
    {
        let ghost change = |entity: Entity|
            if entity.id == id {
                Entity { translation, ..entity }
            } else {
                entity
            };
        let mut found = false;
        let mut index: usize = 0;
        while index < self.entities.len()
            invariant
                index <= self@.len(),
                self@.len() == old(self)@.len(),
                self.next_id == old(self).next_id,
                change == |entity: Entity|
                    if entity.id == id {
                        Entity { translation, ..entity }
                    } else {
                        entity
                    },
                forall|done: int| 0 <= done < index ==> #[trigger] self@[done] == change(old(self)@[done]),
                forall|rest: int| index <= rest < self@.len() ==> #[trigger] self@[rest] == old(self)@[rest],
                found <==> exists|done: int| 0 <= done < index && (#[trigger] old(self)@[done]).id == id,
            decreases self@.len() - index,
        {
            let mut entity = self.entities[index];
            if entity.id == id {
                entity.translation = translation;
                self.entities.set(index, entity);
                found = true;
            }
            index = index + 1;
        }
        proof {
            assert(self@ =~= old(self)@.map_values(change));
            lemma_same_ids(old(self)@, self@, self.next_id as int);
            assert forall|kind: Kind| #[trigger]
                count_kind(self@, kind) == count_kind(old(self)@, kind) by {
                lemma_count_map_values(old(self)@, change, kind);
            }
        }
        found
    }

    /// Sets the velocity of the entity with identifier `id`, as the physics
    /// reports it. Returns whether there is such an entity.
    pub fn set_linear_velocity(&mut self, id: u64, linear_velocity: Velocity) -> (found: bool)
        ensures
            found == has_id(old(self)@, id),
            final(self).next_id == old(self).next_id,
            final(self)@ == old(self)@.map_values(
                |entity: Entity|
                    if entity.id == id {
                        Entity { linear_velocity, ..entity }
                    } else {
                        entity
                    },
            ),
            old(self).wf() ==> final(self).wf(),
            forall|kind: Kind| #[trigger]
                count_kind(final(self)@, kind) == count_kind(old(self)@, kind),
    {
        let ghost change = |entity: Entity|
            if entity.id == id {
                Entity { linear_velocity, ..entity }
            } else {
                entity
            };
        let mut found = false;
        let mut index: usize = 0;
        while index < self.entities.len()
            invariant
                index <= self@.len(),
                self@.len() == old(self)@.len(),
                self.next_id == old(self).next_id,
                change == |entity: Entity|
                    if entity.id == id {
                        Entity { linear_velocity, ..entity }
                    } else {
                        entity
                    },
                forall|done: int| 0 <= done < index ==> #[trigger] self@[done] == change(old(self)@[done]),
                forall|rest: int| index <= rest < self@.len() ==> #[trigger] self@[rest] == old(self)@[rest],
                found <==> exists|done: int| 0 <= done < index && (#[trigger] old(self)@[done]).id == id,
            decreases self@.len() - index,
        {
            let mut entity = self.entities[index];
            if entity.id == id {
                entity.linear_velocity = linear_velocity;
                self.entities.set(index, entity);
                found = true;
            }
            index = index + 1;
        }
        proof {
            assert(self@ =~= old(self)@.map_values(change));
            lemma_same_ids(old(self)@, self@, self.next_id as int);
            assert forall|kind: Kind| #[trigger]
                count_kind(self@, kind) == count_kind(old(self)@, kind) by {
                lemma_count_map_values(old(self)@, change, kind);
            }
        }
        found
    }
}

} // verus!
