//! What stands in the world: the record kept for each entity, and the
//! entities that the game is made of.

use crate::lifetime::{Lifetime, BULLET_DESPAWN_TIME};
use crate::math::{halve, half, Vec3, Velocity};
use vstd::prelude::*;

verus! {

/// The ground's extent along x, in thousandths.
pub const GROUND_SIZE_X: i64 = 10_000;

/// The ground's extent along y, in thousandths.
pub const GROUND_SIZE_Y: i64 = 1_000;

/// The ground's extent along z, in thousandths.
pub const GROUND_SIZE_Z: i64 = 15_000;

/// The camera's place along x, and its offset from a player it follows.
pub const CAMERA_POS_X: i64 = 0;

/// The camera's place along y, and its offset from a player it follows.
pub const CAMERA_POS_Y: i64 = 5_000;

/// The camera's place along z, and its offset from a player it follows.
pub const CAMERA_POS_Z: i64 = 18_000;

/// The speed constant of a bullet, in thousandths of a unit per second.
pub const BULLET_SPEED: i64 = 500_000;

/// The edge of a bullet's collider, in thousandths.
pub const BULLET_SIZE: i64 = 200;

/// The player's acceleration, in thousandths of a unit per second squared.
pub const PLAYER_ACCELERATION: i64 = 12_000;

/// The height of every wall, in thousandths.
pub const WALL_HEIGHT: i64 = 6_000;

/// The thickness of every wall, in thousandths.
pub const WALL_THICKNESS: i64 = 1_000;

/// What an entity is. Every entity has exactly one kind.
#[derive(Clone, Copy, Debug, PartialEq, Eq, Structural)]
pub enum Kind {
    Camera,
    Light,
    Player,
    Ground,
    Wall,
    Sphere,
    Bullet,
}

/// How the physics treats a body.
#[derive(Clone, Copy, Debug, PartialEq, Eq, Structural)]
pub enum RigidBody {
    /// Moved by forces and collisions.
    Dynamic,
    /// Never moves; others collide with it.
    Static,
    /// Moves by its velocity alone.
    Kinematic,
}

/// The shape that collides.
#[derive(Clone, Copy, Debug, PartialEq, Eq, Structural)]
pub enum Collider {
    /// A box with the given extents.
    Cuboid { size: Vec3 },
    /// A ball with the given radius.
    Sphere { radius: i64 },
}

/// The axes along or about which a body may not move.
#[derive(Clone, Copy, Debug, PartialEq, Eq, Structural)]
pub struct LockedAxes {
    pub translation_x: bool,
    pub translation_y: bool,
    pub translation_z: bool,
    pub rotation_x: bool,
    pub rotation_y: bool,
    pub rotation_z: bool,
}

impl LockedAxes {
    /// No axis locked.
    pub open spec fn spec_free() -> LockedAxes {
        LockedAxes {
            translation_x: false,
            translation_y: false,
            translation_z: false,
            rotation_x: false,
            rotation_y: false,
            rotation_z: false,
        }
    }

    /// No axis locked.
    #[verifier::when_used_as_spec(spec_free)]
    pub fn free() -> (axes: LockedAxes)
        ensures
            axes == LockedAxes::spec_free(),
    {
        LockedAxes {
            translation_x: false,
            translation_y: false,
            translation_z: false,
            rotation_x: false,
            rotation_y: false,
            rotation_z: false,
        }
    }
}

/// One entity: its identifier, its kind, and what is attached to it.
#[derive(Clone, Copy, Debug, PartialEq, Eq)]
pub struct Entity {
    /// Given by the world when the entity is spawned.
    pub id: u64,
    pub kind: Kind,
    /// Where the entity is, as last set or reported.
    pub translation: Vec3,
    /// The point a camera looks at, with the y axis up.
    pub looking_at: Option<Vec3>,
    pub body: Option<RigidBody>,
    pub collider: Option<Collider>,
    pub linear_velocity: Velocity,
    /// In thousandths.
    pub linear_damping: Option<i64>,
    /// In thousandths of a unit per second squared.
    pub movement_acceleration: Option<i64>,
    pub locked_axes: LockedAxes,
    pub lifetime: Option<Lifetime>,
}

/// The ground's extents.
pub open spec fn spec_ground_size() -> Vec3 {
    Vec3 { x: GROUND_SIZE_X, y: GROUND_SIZE_Y, z: GROUND_SIZE_Z }
}

/// The ground's extents.
#[verifier::when_used_as_spec(spec_ground_size)]
pub fn ground_size() -> (size: Vec3)
    ensures
        size == spec_ground_size(),
{
    Vec3 { x: GROUND_SIZE_X, y: GROUND_SIZE_Y, z: GROUND_SIZE_Z }
}

/// Where the camera stands, and its offset from a player it follows.
pub open spec fn spec_camera_pos() -> Vec3 {
    Vec3 { x: CAMERA_POS_X, y: CAMERA_POS_Y, z: CAMERA_POS_Z }
}

/// Where the camera stands, and its offset from a player it follows.
#[verifier::when_used_as_spec(spec_camera_pos)]
pub fn camera_pos() -> (pos: Vec3)
    ensures
        pos == spec_camera_pos(),
{
    Vec3 { x: CAMERA_POS_X, y: CAMERA_POS_Y, z: CAMERA_POS_Z }
}

impl Entity {
    /// An entity of the given kind at the given place, with nothing else
    /// attached and at rest. Its identifier is zero until it is spawned.
    pub open spec fn spec_bare(kind: Kind, translation: Vec3) -> Entity {
        Entity {
            id: 0,
            kind,
            translation,
            looking_at: None,
            body: None,
            collider: None,
            linear_velocity: Velocity::zero(),
            linear_damping: None,
            movement_acceleration: None,
            locked_axes: LockedAxes::spec_free(),
            lifetime: None,
        }
    }

    /// An entity of the given kind at the given place, with nothing else
    /// attached and at rest.
    #[verifier::when_used_as_spec(spec_bare)]
    pub fn bare(kind: Kind, translation: Vec3) -> (entity: Entity)
        ensures
            entity == Entity::spec_bare(kind, translation),
    {
        Entity {
            id: 0,
            kind,
            translation,
            looking_at: None,
            body: None,
            collider: None,
            linear_velocity: Velocity { x: 0, y: 0, z: 0 },
            linear_damping: None,
            movement_acceleration: None,
            locked_axes: LockedAxes::free(),
            lifetime: None,
        }
    }

    /// The same entity under the identifier `id`.
    pub open spec fn with_id(self, id: u64) -> Entity {
        Entity { id, ..self }
    }

    /// The camera: at its fixed place, looking at a point near the place
    /// where the player starts.
    pub open spec fn spec_camera() -> Entity {
        Entity {
            looking_at: Some(Vec3 { x: 0, y: 2_000, z: 3_000 }),
            ..Entity::spec_bare(Kind::Camera, spec_camera_pos())
        }
    }

    /// The camera.
    #[verifier::when_used_as_spec(spec_camera)]
    pub fn camera() -> (entity: Entity)
        ensures
            entity == Entity::spec_camera(),
    {
        let mut entity = Entity::bare(Kind::Camera, camera_pos());
        entity.looking_at = Some(Vec3 { x: 0, y: 2_000, z: 3_000 });
        entity
    }

    /// The light, above the ground.
    pub open spec fn spec_light() -> Entity {
        Entity::spec_bare(Kind::Light, Vec3 { x: 4_000, y: 12_000, z: 4_000 })
    }

    /// The light.
    #[verifier::when_used_as_spec(spec_light)]
    pub fn light() -> (entity: Entity)
        ensures
            entity == Entity::spec_light(),
    {
        Entity::bare(Kind::Light, Vec3 { x: 4_000, y: 12_000, z: 4_000 })
    }

    /// The player: a dynamic unit cube just above the ground, half a unit
    /// inside the ground's near edge, that cannot rotate.
    pub open spec fn spec_player() -> Entity {
        Entity {
            body: Some(RigidBody::Dynamic),
            collider: Some(Collider::Cuboid { size: Vec3 { x: 1_000, y: 1_000, z: 1_000 } }),
            linear_damping: Some(1_000),
            movement_acceleration: Some(PLAYER_ACCELERATION),
            locked_axes: LockedAxes {
                rotation_x: true,
                rotation_y: true,
                rotation_z: true,
                ..LockedAxes::spec_free()
            },
            ..Entity::spec_bare(
                Kind::Player,
                Vec3 { x: 0, y: 1_100, z: (half(GROUND_SIZE_Z as int) - 500) as i64 },
            )
        }
    }

    /// The player.
    #[verifier::when_used_as_spec(spec_player)]
    pub fn player() -> (entity: Entity)
        ensures
            entity == Entity::spec_player(),
            entity.translation == (Vec3 { x: 0, y: 1_100, z: 7_000 }),
    {
        let mut entity = Entity::bare(
            Kind::Player,
            Vec3 { x: 0, y: 1_100, z: halve(GROUND_SIZE_Z) - 500 },
        );
        entity.body = Some(RigidBody::Dynamic);
        entity.collider = Some(Collider::Cuboid { size: Vec3 { x: 1_000, y: 1_000, z: 1_000 } });
        entity.linear_damping = Some(1_000);
        entity.movement_acceleration = Some(PLAYER_ACCELERATION);
        entity.locked_axes.rotation_x = true;
        entity.locked_axes.rotation_y = true;
        entity.locked_axes.rotation_z = true;
        entity
    }

    /// The ground: a static slab centred on the origin.
    pub open spec fn spec_ground() -> Entity {
        Entity {
            body: Some(RigidBody::Static),
            collider: Some(Collider::Cuboid { size: spec_ground_size() }),
            ..Entity::spec_bare(Kind::Ground, Vec3 { x: 0, y: 0, z: 0 })
        }
    }

    /// The ground.
    #[verifier::when_used_as_spec(spec_ground)]
    pub fn ground() -> (entity: Entity)
        ensures
            entity == Entity::spec_ground(),
    {
        let mut entity = Entity::bare(Kind::Ground, Vec3 { x: 0, y: 0, z: 0 });
        entity.body = Some(RigidBody::Static);
        entity.collider = Some(Collider::Cuboid { size: ground_size() });
        entity
    }

    /// The test sphere: a dynamic ball that can move along z only.
    pub open spec fn spec_sphere() -> Entity {
        Entity {
            body: Some(RigidBody::Dynamic),
            collider: Some(Collider::Sphere { radius: 500 }),
            locked_axes: LockedAxes {
                translation_x: true,
                translation_y: true,
                ..LockedAxes::spec_free()
            },
            ..Entity::spec_bare(Kind::Sphere, Vec3 { x: 0, y: 1_100, z: 1_500 })
        }
    }

    /// The test sphere.
    #[verifier::when_used_as_spec(spec_sphere)]
    pub fn sphere() -> (entity: Entity)
        ensures
            entity == Entity::spec_sphere(),
    {
        let mut entity = Entity::bare(Kind::Sphere, Vec3 { x: 0, y: 1_100, z: 1_500 });
        entity.body = Some(RigidBody::Dynamic);
        entity.collider = Some(Collider::Sphere { radius: 500 });
        entity.locked_axes.translation_x = true;
        entity.locked_axes.translation_y = true;
        entity
    }

    /// A wall: a static box of the given extents at the given place.
    pub open spec fn spec_wall(position: Vec3, size: Vec3) -> Entity {
        Entity {
            body: Some(RigidBody::Static),
            collider: Some(Collider::Cuboid { size }),
            ..Entity::spec_bare(Kind::Wall, position)
        }
    }

    /// A wall.
    #[verifier::when_used_as_spec(spec_wall)]
    pub fn wall(position: Vec3, size: Vec3) -> (entity: Entity)
        ensures
            entity == Entity::spec_wall(position, size),
    {
        let mut entity = Entity::bare(Kind::Wall, position);
        entity.body = Some(RigidBody::Static);
        entity.collider = Some(Collider::Cuboid { size });
        entity
    }

    /// Whether a bullet can be fired from `from`: the place one unit
    /// further along -z must be a coordinate.
    pub open spec fn can_fire_from(from: Vec3) -> bool {
        from.z - 1_000 >= i64::MIN
    }

    /// The bullet fired from `from` in a frame that took `delta`
    /// nanoseconds: a small kinematic cube one unit further along -z,
    /// flying along -z at `BULLET_SPEED * 3 * delta`, with three seconds to
    /// live.
    pub open spec fn spec_bullet(from: Vec3, delta: u64) -> Entity {
        Entity {
            body: Some(RigidBody::Kinematic),
            collider: Some(
                Collider::Cuboid { size: Vec3 { x: BULLET_SIZE, y: BULLET_SIZE, z: BULLET_SIZE } },
            ),
            linear_velocity: Velocity { x: 0, y: 0, z: (-(BULLET_SPEED * 3 * delta)) as i128 },
            linear_damping: Some(1_000),
            lifetime: Some(Lifetime { elapsed: 0, duration: BULLET_DESPAWN_TIME }),
            ..Entity::spec_bare(
                Kind::Bullet,
                Vec3 { x: from.x, y: from.y, z: (from.z - 1_000) as i64 },
            )
        }
    }

    /// The bullet fired from `from` in a frame that took `delta`
    /// nanoseconds.
    #[verifier::when_used_as_spec(spec_bullet)]
    pub fn bullet(from: Vec3, delta: u64) -> (entity: Entity)
        requires
            Entity::can_fire_from(from),
        ensures
            entity == Entity::spec_bullet(from, delta),
            entity.translation.z == from.z - 1_000,
            entity.linear_velocity.z == -(BULLET_SPEED * 3 * delta),
    {
        let mut entity = Entity::bare(
            Kind::Bullet,
            Vec3 { x: from.x, y: from.y, z: from.z - 1_000 },
        );
        entity.body = Some(RigidBody::Kinematic);
        entity.collider = Some(
            Collider::Cuboid { size: Vec3 { x: BULLET_SIZE, y: BULLET_SIZE, z: BULLET_SIZE } },
        );
        let speed: i128 = (BULLET_SPEED as i128) * 3;
        assert(0 <= speed * delta <= speed * 0xffff_ffff_ffff_ffff) by (nonlinear_arith)
            requires
                speed == 1_500_000,
                0 <= delta <= 0xffff_ffff_ffff_ffff,
        ;
        assert(BULLET_SPEED * 3 * delta == speed * delta);
        entity.linear_velocity.z = -(speed * (delta as i128));
        entity.linear_damping = Some(1_000);
        entity.lifetime = Some(Lifetime::new(BULLET_DESPAWN_TIME));
        entity
    }
}

} // verus!
