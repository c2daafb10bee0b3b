//! What is put into the world once, before the first frame: the scene and
//! the walls around the ground.

use crate::entity::{ground_size, spec_ground_size, Entity, Kind, WALL_HEIGHT, WALL_THICKNESS};
use crate::math::{half, halve, Vec3};
use crate::world::{count_kind, World};
use vstd::prelude::*;

verus! {

/// Where a wall stands and how large it is.
#[derive(Clone, Copy, Debug, PartialEq, Eq, Structural)]
pub struct WallProperties {
    /// The wall's centre.
    pub position: Vec3,
    /// The wall's extents.
    pub size: Vec3,
}

/// The wall on the +x side of a ground with extents `ground`: as long as
/// the ground is deep, its centre half a unit beyond the ground's edge.
pub open spec fn left_wall(ground: Vec3) -> WallProperties {
    WallProperties {
        position: Vec3 { x: (half(ground.x as int) + 500) as i64, y: 0, z: 0 },
        size: Vec3 { x: WALL_THICKNESS, y: WALL_HEIGHT, z: ground.z },
    }
}

/// The wall on the -x side: the mirror image of the left wall.
pub open spec fn right_wall(ground: Vec3) -> WallProperties {
    WallProperties {
        position: Vec3 { x: (-half(ground.x as int) - 500) as i64, y: 0, z: 0 },
        size: Vec3 { x: WALL_THICKNESS, y: WALL_HEIGHT, z: ground.z },
    }
}

/// The wall on the -z side: as long as the ground is wide, its centre half
/// a unit beyond the ground's far edge.
pub open spec fn back_wall(ground: Vec3) -> WallProperties {
    WallProperties {
        position: Vec3 { x: 0, y: 0, z: (-half(ground.z as int) - 500) as i64 },
        size: Vec3 { x: ground.x, y: WALL_HEIGHT, z: WALL_THICKNESS },
    }
}

/// The three walls of a ground with extents `ground`: left, right, back.
/// The +z side stays open.
pub open spec fn spec_wall_properties(ground: Vec3) -> Seq<WallProperties> {
    seq![left_wall(ground), right_wall(ground), back_wall(ground)]
}

/// Places the three walls around a ground with extents `ground`.
pub fn wall_properties(ground: Vec3) -> (walls: Vec<WallProperties>)
    ensures
        walls@ == spec_wall_properties(ground),
        walls@.len() == 3,
        walls@[0].position.x == half(ground.x as int) + 500,
        walls@[1].position.x == -half(ground.x as int) - 500,
        walls@[2].position.z == -half(ground.z as int) - 500,
{
    let half_x = halve(ground.x);
    let half_z = halve(ground.z);
    let mut walls: Vec<WallProperties> = Vec::new();
    walls.push(
        WallProperties {
            position: Vec3 { x: half_x + 500, y: 0, z: 0 },
            size: Vec3 { x: WALL_THICKNESS, y: WALL_HEIGHT, z: ground.z },
        },
    );
    walls.push(
        WallProperties {
            position: Vec3 { x: -half_x - 500, y: 0, z: 0 },
            size: Vec3 { x: WALL_THICKNESS, y: WALL_HEIGHT, z: ground.z },
        },
    );
    walls.push(
        WallProperties {
            position: Vec3 { x: 0, y: 0, z: -half_z - 500 },
            size: Vec3 { x: ground.x, y: WALL_HEIGHT, z: WALL_THICKNESS },
        },
    );
    assert(walls@ =~= spec_wall_properties(ground));
    walls
}

/// The scene in the order in which it is spawned, under the identifiers
/// `first_id` and up: camera, light, player, ground, test sphere.
pub open spec fn scene(first_id: u64) -> Seq<Entity> {
    seq![
        Entity::spec_camera().with_id(first_id),
        Entity::spec_light().with_id((first_id + 1) as u64),
        Entity::spec_player().with_id((first_id + 2) as u64),
        Entity::spec_ground().with_id((first_id + 3) as u64),
        Entity::spec_sphere().with_id((first_id + 4) as u64),
    ]
}

/// How many entities of kind `kind` the scene holds.
pub open spec fn scene_count(kind: Kind) -> nat {
    match kind {
        Kind::Camera | Kind::Light | Kind::Player | Kind::Ground | Kind::Sphere => 1,
        Kind::Wall | Kind::Bullet => 0,
    }
}

/// The three walls of the ground as entities, under the identifiers
/// `first_id` and up.
pub open spec fn walls(first_id: u64) -> Seq<Entity> {
    let ground = spec_ground_size();
    seq![
        Entity::spec_wall(left_wall(ground).position, left_wall(ground).size).with_id(first_id),
        Entity::spec_wall(right_wall(ground).position, right_wall(ground).size).with_id(
            (first_id + 1) as u64,
        ),
        Entity::spec_wall(back_wall(ground).position, back_wall(ground).size).with_id(
            (first_id + 2) as u64,
        ),
    ]
}

/// Spawns the scene: one camera, one light, the player, the ground and the
/// test sphere, in this order.
pub fn setup(world: &mut World)
    requires
        old(world).next_id <= u64::MAX - 5,
    ensures
        final(world)@ == old(world)@ + scene(old(world).next_id),
        final(world).next_id == old(world).next_id + 5,
        old(world).wf() ==> final(world).wf(),
        forall|kind: Kind| #[trigger]
            count_kind(final(world)@, kind) == count_kind(old(world)@, kind) + scene_count(kind),
{
    let ghost before = world@;
    world.spawn(Entity::camera());
    let ghost with_camera = world@;
    world.spawn(Entity::light());
    let ghost with_light = world@;
    world.spawn(Entity::player());
    let ghost with_player = world@;
    world.spawn(Entity::ground());
    let ghost with_ground = world@;
    world.spawn(Entity::sphere());
    proof {
        assert(world@ =~= before + scene(old(world).next_id));
        assert forall|kind: Kind| #[trigger]
            count_kind(world@, kind) == count_kind(before, kind) + scene_count(kind) by {
            assert(count_kind(with_camera, kind) == count_kind(before, kind) + if kind
                == Kind::Camera {
                1nat
            } else {
                0nat
            });
            assert(count_kind(with_light, kind) == count_kind(with_camera, kind) + if kind
                == Kind::Light {
                1nat
            } else {
                0nat
            });
            assert(count_kind(with_player, kind) == count_kind(with_light, kind) + if kind
                == Kind::Player {
                1nat
            } else {
                0nat
            });
            assert(count_kind(with_ground, kind) == count_kind(with_player, kind) + if kind
                == Kind::Ground {
                1nat
            } else {
                0nat
            });
            assert(count_kind(world@, kind) == count_kind(with_ground, kind) + if kind
                == Kind::Sphere {
                1nat
            } else {
                0nat
            });
        }
    }
}

/// Spawns the three walls around the ground: left, right, back.
pub fn spawn_walls(world: &mut World)
    requires
        old(world).next_id <= u64::MAX - 3,
    ensures
        final(world)@ == old(world)@ + walls(old(world).next_id),
        final(world).next_id == old(world).next_id + 3,
        old(world).wf() ==> final(world).wf(),
        forall|kind: Kind| #[trigger]
            count_kind(final(world)@, kind) == count_kind(old(world)@, kind) + if kind
                == Kind::Wall {
                3nat
            } else {
                0nat
            },
{
    let wall_spawn_pos = wall_properties(ground_size());
    let ghost before = world@;
    let mut index: usize = 0;
    while index < 3
        invariant
            index <= 3,
            wall_spawn_pos@ == spec_wall_properties(spec_ground_size()),
            world.next_id == old(world).next_id + index,
            old(world).next_id <= u64::MAX - 3,
            before == old(world)@,
            world@ == before + walls(old(world).next_id).take(index as int),
            old(world).wf() ==> world.wf(),
            forall|kind: Kind| #[trigger]
                count_kind(world@, kind) == count_kind(before, kind) + if kind == Kind::Wall {
                    index as nat
                } else {
                    0nat
                },
        decreases 3 - index,
    {
        let spawn_prop = wall_spawn_pos[index];
        let ghost so_far = world@;
        world.spawn(Entity::wall(spawn_prop.position, spawn_prop.size));
        proof {
            let all = walls(old(world).next_id);
            assert(all.take(index as int + 1) =~= all.take(index as int).push(all[index as int]));
            assert(world@ =~= before + all.take(index as int + 1));
            assert forall|kind: Kind| #[trigger]
                count_kind(world@, kind) == count_kind(before, kind) + if kind == Kind::Wall {
                    (index + 1) as nat
                } else {
                    0nat
                } by {
                assert(count_kind(world@, kind) == count_kind(so_far, kind) + if kind
                    == Kind::Wall {
                    1nat
                } else {
                    0nat
                });
            }
        }
        index = index + 1;
    }
    proof {
        let all = walls(old(world).next_id);
        assert(all.take(3) =~= all);
    }
}

} // verus!
