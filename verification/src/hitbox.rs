//! The shapes of entity hitboxes. Lengths are whole micro-blocks (a
//! millionth of a block), in which every size the rules name is exact.
//! A shape is an axis-aligned box relative to the entity's position;
//! placing it in the world is left to the caller.
use vstd::prelude::*;
use crate::entity::Pose;

verus! {

/// Micro-blocks in a block.
pub const UNITS_PER_BLOCK: i64 = 1_000_000;

/// The largest coordinate magnitude the geometry accepts, far beyond any
/// world, so that sums and halves never overflow.
pub const COORD_LIMIT: i64 = 0x1000_0000_0000_0000;

/// A point or a size, in micro-blocks.
#[derive(Clone, Copy, Debug, PartialEq, Eq, Hash, Default, Structural)]
pub struct Vec3 {
    pub x: i64,
    pub y: i64,
    pub z: i64,
}

/// The vector with the given coordinates.
pub open spec fn vec3(x: int, y: int, z: int) -> Vec3 {
    Vec3 { x: x as i64, y: y as i64, z: z as i64 }
}

/// Whether every coordinate of `v` is within `COORD_LIMIT`.
pub open spec fn in_range(v: Vec3) -> bool {
    &&& -COORD_LIMIT <= v.x <= COORD_LIMIT
    &&& -COORD_LIMIT <= v.y <= COORD_LIMIT
    &&& -COORD_LIMIT <= v.z <= COORD_LIMIT
}

impl Vec3 {
    /// The vector with the given coordinates.
    pub fn new(x: i64, y: i64, z: i64) -> (v: Vec3)
        ensures
            v == (Vec3 { x, y, z }),
    {
        Vec3 { x, y, z }
    }

    /// The vector with all three coordinates `v`.
    pub fn splat(v: i64) -> (r: Vec3)
        ensures
            r == (Vec3 { x: v, y: v, z: v }),
    {
        Vec3 { x: v, y: v, z: v }
    }
}

/// An axis-aligned box, `min` its lowest corner and `max` its highest.
#[derive(Clone, Copy, Debug, PartialEq, Eq, Hash, Default, Structural)]
pub struct Aabb {
    pub min: Vec3,
    pub max: Vec3,
}

/// Half of `v`, rounded down.
pub open spec fn half(v: int) -> int {
    v / 2
}

/// The box standing on `bottom` with the given size: centered on `bottom`
/// in x and z, and rising from it in y. An odd width or depth cannot be
/// halved in whole micro-blocks; its half is rounded down, so the box is
/// one micro-block narrower than the size. Every size the rules name is
/// even.
pub open spec fn box_from_bottom_size(bottom: Vec3, size: Vec3) -> Aabb {
    Aabb {
        min: vec3(bottom.x - half(size.x as int), bottom.y as int, bottom.z - half(size.z as int)),
        max: vec3(bottom.x + half(size.x as int), bottom.y + size.y, bottom.z + half(size.z as int)),
    }
}

/// Half of `v`, rounded down.
fn half_exec(v: i64) -> (h: i64)
    requires
        -COORD_LIMIT <= v <= COORD_LIMIT,
    ensures
        h == half(v as int),
{
    if v >= 0 {
        ((v as u64) / 2) as i64
    } else {
        let m: u64 = (-v) as u64;
        -(((m + 1) / 2) as i64)
    }
}

impl Aabb {
    /// The box with the given lowest and highest corners.
    pub fn new(min: Vec3, max: Vec3) -> (b: Aabb)
        ensures
            b == (Aabb { min, max }),
    {
        Aabb { min, max }
    }

    /// The box standing on `bottom` with the given size.
    pub fn from_bottom_size(bottom: Vec3, size: Vec3) -> (b: Aabb)
        requires
            in_range(bottom),
            in_range(size),
        ensures
            b == box_from_bottom_size(bottom, size),
    {
        let hx = half_exec(size.x);
        let hz = half_exec(size.z);
        Aabb::new(
            Vec3 { x: bottom.x - hx, y: bottom.y, z: bottom.z - hz },
            Vec3 { x: bottom.x + hx, y: bottom.y + size.y, z: bottom.z + hz },
        )
    }
}

/// The size of an entity's hitbox and its place around the entity. The only
/// way to keep a changed shape from being recomputed on the next tick is a
/// marker entity, whose shape is never updated.
#[derive(Clone, Copy, Debug, PartialEq, Eq, Structural)]
pub struct HitboxShape(pub Aabb);

/// The shape of the given size standing on the entity's position.
pub open spec fn centered_shape(size: Vec3) -> HitboxShape {
    HitboxShape(box_from_bottom_size(vec3(0, 0, 0), size))
}

impl HitboxShape {
    /// The empty shape at the entity's position.
    pub fn zero() -> (s: HitboxShape)
        ensures
            s == HitboxShape(Aabb { min: vec3(0, 0, 0), max: vec3(0, 0, 0) }),
    {
        HitboxShape(Aabb::new(Vec3::splat(0), Vec3::splat(0)))
    }

    /// The box of the shape.
    pub fn get(&self) -> (b: Aabb)
        ensures
            b == self.0,
    {
        self.0
    }

    /// Makes the shape a box of the given size standing on the entity's
    /// position.
    pub fn centered(&mut self, size: Vec3)
        requires
            in_range(size),
        ensures
            *final(self) == centered_shape(size),
    {
        self.0 = Aabb::from_bottom_size(Vec3::splat(0), size);
    }
}

/// Whether the hitbox rules give new entities a hitbox by themselves;
/// otherwise it is up to the user to add one.
#[derive(Clone, Copy, Debug, PartialEq, Eq, Structural)]
pub struct EntityHitboxSettings {
    /// Whether every new entity gets a hitbox.
    pub add_hitbox_component: bool,
}

impl Default for EntityHitboxSettings {
    fn default() -> (s: Self)
        ensures
            s.add_hitbox_component,
    {
        EntityHitboxSettings { add_hitbox_component: true }
    }
}

/// The kinds of entity whose hitbox size the rules fix by kind alone.
#[derive(Clone, Copy, Debug, PartialEq, Eq, Hash, Structural)]
pub enum EntityKind {
    Allay,
    Arrow,
    Axolotl,
    Bat,
    Bee,
    Blaze,
    Boat,
    Camel,
    Cat,
    CaveSpider,
    ChestBoat,
    Chicken,
    Cod,
    Creeper,
    Dolphin,
    Donkey,
    DragonFireball,
    ElderGuardian,
    EndCrystal,
    EnderDragon,
    EnderMan,
    Endermite,
    Evoker,
    EvokerFangs,
    ExperienceOrb,
    EyeOfEnder,
    FallingBlock,
    FireworkRocket,
    FishingHook,
    Fox,
    Frog,
    Ghast,
    Giant,
    GlowSquid,
    Goat,
    Guardian,
    Hoglin,
    Horse,
    Illusioner,
    IronGolem,
    Item,
    LargeFireball,
    LeashFenceKnot,
    LightningBolt,
    Llama,
    LlamaSpit,
    Minecart,
    MinecartChest,
    MinecartCommandBlock,
    MinecartFurnace,
    MinecartHopper,
    MinecartSpawner,
    MinecartTnt,
    Mule,
    MushroomCow,
    Ocelot,
    Panda,
    Parrot,
    Phantom,
    Pig,
    PiglinBrute,
    Pillager,
    PolarBear,
    PrimedTnt,
    Pufferfish,
    Rabbit,
    Ravager,
    Salmon,
    Sheep,
    ShulkerBullet,
    Silverfish,
    SkeletonHorse,
    SmallFireball,
    SnowGolem,
    SpectralArrow,
    Spider,
    Squid,
    Stray,
    Tadpole,
    ThrownEgg,
    ThrownEnderpearl,
    ThrownExperienceBottle,
    ThrownLingeringPotion,
    ThrownSplashPotion,
    ThrownTrident,
    TraderLlama,
    TropicalFish,
    Turtle,
    Vex,
    Villager,
    Vindicator,
    WitherBoss,
    WitherSkeleton,
    WitherSkull,
    Wolf,
    ZombieHorse,
    /// Any kind whose hitbox comes from another rule, or from none.
    Other,
}

/// The size of a kind whose hitbox never changes, if it is one of those.
pub open spec fn constant_size(kind: EntityKind) -> Option<Vec3> {
    match kind {
        EntityKind::Allay => Some(vec3(600_000, 350_000, 600_000)),
        EntityKind::ChestBoat | EntityKind::Boat => Some(vec3(1_375_000, 562_500, 1_375_000)),
        EntityKind::Frog => Some(vec3(500_000, 500_000, 500_000)),
        EntityKind::Tadpole => Some(vec3(400_000, 300_000, 400_000)),
        EntityKind::SpectralArrow | EntityKind::Arrow => Some(vec3(500_000, 500_000, 500_000)),
        EntityKind::Axolotl => Some(vec3(1_300_000, 600_000, 1_300_000)),
        EntityKind::Bat => Some(vec3(500_000, 900_000, 500_000)),
        EntityKind::Blaze => Some(vec3(600_000, 1_800_000, 600_000)),
        EntityKind::Cat => Some(vec3(600_000, 700_000, 600_000)),
        EntityKind::CaveSpider => Some(vec3(700_000, 500_000, 700_000)),
        EntityKind::Cod => Some(vec3(500_000, 300_000, 500_000)),
        EntityKind::Creeper => Some(vec3(600_000, 1_700_000, 600_000)),
        EntityKind::Dolphin => Some(vec3(900_000, 600_000, 900_000)),
        EntityKind::DragonFireball => Some(vec3(1_000_000, 1_000_000, 1_000_000)),
        EntityKind::ElderGuardian => Some(vec3(1_997_500, 1_997_500, 1_997_500)),
        EntityKind::EndCrystal => Some(vec3(2_000_000, 2_000_000, 2_000_000)),
        EntityKind::EnderDragon => Some(vec3(16_000_000, 8_000_000, 16_000_000)),
        EntityKind::EnderMan => Some(vec3(600_000, 2_900_000, 600_000)),
        EntityKind::Endermite => Some(vec3(400_000, 300_000, 400_000)),
        EntityKind::Evoker => Some(vec3(600_000, 1_950_000, 600_000)),
        EntityKind::EvokerFangs => Some(vec3(500_000, 800_000, 500_000)),
        EntityKind::ExperienceOrb => Some(vec3(500_000, 500_000, 500_000)),
        EntityKind::EyeOfEnder => Some(vec3(250_000, 250_000, 250_000)),
        EntityKind::FallingBlock => Some(vec3(980_000, 980_000, 980_000)),
        EntityKind::FireworkRocket => Some(vec3(250_000, 250_000, 250_000)),
        EntityKind::Ghast => Some(vec3(4_000_000, 4_000_000, 4_000_000)),
        EntityKind::Giant => Some(vec3(3_600_000, 12_000_000, 3_600_000)),
        EntityKind::GlowSquid | EntityKind::Squid => Some(vec3(800_000, 800_000, 800_000)),
        EntityKind::Guardian => Some(vec3(850_000, 850_000, 850_000)),
        EntityKind::Illusioner => Some(vec3(600_000, 1_950_000, 600_000)),
        EntityKind::IronGolem => Some(vec3(1_400_000, 2_700_000, 1_400_000)),
        EntityKind::Item => Some(vec3(250_000, 250_000, 250_000)),
        EntityKind::LargeFireball => Some(vec3(1_000_000, 1_000_000, 1_000_000)),
        EntityKind::LeashFenceKnot => Some(vec3(375_000, 500_000, 375_000)),
        EntityKind::LightningBolt => Some(vec3(0, 0, 0)),
        EntityKind::LlamaSpit => Some(vec3(250_000, 250_000, 250_000)),
        EntityKind::Minecart | EntityKind::MinecartChest | EntityKind::MinecartTnt | EntityKind::MinecartHopper | EntityKind::MinecartFurnace | EntityKind::MinecartSpawner | EntityKind::MinecartCommandBlock => Some(vec3(980_000, 700_000, 980_000)),
        EntityKind::Parrot => Some(vec3(500_000, 900_000, 500_000)),
        EntityKind::Phantom => Some(vec3(900_000, 500_000, 900_000)),
        EntityKind::PiglinBrute => Some(vec3(600_000, 1_950_000, 600_000)),
        EntityKind::Pillager => Some(vec3(600_000, 1_950_000, 600_000)),
        EntityKind::PrimedTnt => Some(vec3(980_000, 980_000, 980_000)),
        EntityKind::Pufferfish => Some(vec3(700_000, 700_000, 700_000)),
        EntityKind::Ravager => Some(vec3(1_950_000, 2_200_000, 1_950_000)),
        EntityKind::Salmon => Some(vec3(700_000, 400_000, 700_000)),
        EntityKind::ShulkerBullet => Some(vec3(312_500, 312_500, 312_500)),
        EntityKind::Silverfish => Some(vec3(400_000, 300_000, 400_000)),
        EntityKind::SmallFireball => Some(vec3(312_500, 312_500, 312_500)),
        EntityKind::SnowGolem => Some(vec3(700_000, 1_900_000, 700_000)),
        EntityKind::Spider => Some(vec3(1_400_000, 900_000, 1_400_000)),
        EntityKind::Stray => Some(vec3(600_000, 1_990_000, 600_000)),
        EntityKind::ThrownEgg => Some(vec3(250_000, 250_000, 250_000)),
        EntityKind::ThrownEnderpearl => Some(vec3(250_000, 250_000, 250_000)),
        EntityKind::ThrownExperienceBottle => Some(vec3(250_000, 250_000, 250_000)),
        EntityKind::ThrownSplashPotion | EntityKind::ThrownLingeringPotion => Some(vec3(250_000, 250_000, 250_000)),
        EntityKind::ThrownTrident => Some(vec3(500_000, 500_000, 500_000)),
        EntityKind::TraderLlama => Some(vec3(900_000, 1_870_000, 900_000)),
        EntityKind::TropicalFish => Some(vec3(500_000, 400_000, 500_000)),
        EntityKind::Vex => Some(vec3(400_000, 800_000, 400_000)),
        EntityKind::Vindicator => Some(vec3(600_000, 1_950_000, 600_000)),
        EntityKind::WitherBoss => Some(vec3(900_000, 3_500_000, 900_000)),
        EntityKind::WitherSkeleton => Some(vec3(700_000, 2_400_000, 700_000)),
        EntityKind::WitherSkull => Some(vec3(312_500, 312_500, 312_500)),
        EntityKind::FishingHook => Some(vec3(250_000, 250_000, 250_000)),
        _ => None,
    }
}

/// The size of a kind whose hitbox never changes, if it is one of those.
pub fn constant_hitbox_size(kind: EntityKind) -> (s: Option<Vec3>)
    ensures
        s == constant_size(kind),
        s matches Some(v) ==> in_range(v),
{
    match kind {
        EntityKind::Allay => Some(Vec3::new(600_000, 350_000, 600_000)),
        EntityKind::ChestBoat | EntityKind::Boat => Some(Vec3::new(1_375_000, 562_500, 1_375_000)),
        EntityKind::Frog => Some(Vec3::new(500_000, 500_000, 500_000)),
        EntityKind::Tadpole => Some(Vec3::new(400_000, 300_000, 400_000)),
        EntityKind::SpectralArrow | EntityKind::Arrow => Some(Vec3::new(500_000, 500_000, 500_000)),
        EntityKind::Axolotl => Some(Vec3::new(1_300_000, 600_000, 1_300_000)),
        EntityKind::Bat => Some(Vec3::new(500_000, 900_000, 500_000)),
        EntityKind::Blaze => Some(Vec3::new(600_000, 1_800_000, 600_000)),
        EntityKind::Cat => Some(Vec3::new(600_000, 700_000, 600_000)),
        EntityKind::CaveSpider => Some(Vec3::new(700_000, 500_000, 700_000)),
        EntityKind::Cod => Some(Vec3::new(500_000, 300_000, 500_000)),
        EntityKind::Creeper => Some(Vec3::new(600_000, 1_700_000, 600_000)),
        EntityKind::Dolphin => Some(Vec3::new(900_000, 600_000, 900_000)),
        EntityKind::DragonFireball => Some(Vec3::new(1_000_000, 1_000_000, 1_000_000)),
        EntityKind::ElderGuardian => Some(Vec3::new(1_997_500, 1_997_500, 1_997_500)),
        EntityKind::EndCrystal => Some(Vec3::new(2_000_000, 2_000_000, 2_000_000)),
        EntityKind::EnderDragon => Some(Vec3::new(16_000_000, 8_000_000, 16_000_000)),
        EntityKind::EnderMan => Some(Vec3::new(600_000, 2_900_000, 600_000)),
        EntityKind::Endermite => Some(Vec3::new(400_000, 300_000, 400_000)),
        EntityKind::Evoker => Some(Vec3::new(600_000, 1_950_000, 600_000)),
        EntityKind::EvokerFangs => Some(Vec3::new(500_000, 800_000, 500_000)),
        EntityKind::ExperienceOrb => Some(Vec3::new(500_000, 500_000, 500_000)),
        EntityKind::EyeOfEnder => Some(Vec3::new(250_000, 250_000, 250_000)),
        EntityKind::FallingBlock => Some(Vec3::new(980_000, 980_000, 980_000)),
        EntityKind::FireworkRocket => Some(Vec3::new(250_000, 250_000, 250_000)),
        EntityKind::Ghast => Some(Vec3::new(4_000_000, 4_000_000, 4_000_000)),
        EntityKind::Giant => Some(Vec3::new(3_600_000, 12_000_000, 3_600_000)),
        EntityKind::GlowSquid | EntityKind::Squid => Some(Vec3::new(800_000, 800_000, 800_000)),
        EntityKind::Guardian => Some(Vec3::new(850_000, 850_000, 850_000)),
        EntityKind::Illusioner => Some(Vec3::new(600_000, 1_950_000, 600_000)),
        EntityKind::IronGolem => Some(Vec3::new(1_400_000, 2_700_000, 1_400_000)),
        EntityKind::Item => Some(Vec3::new(250_000, 250_000, 250_000)),
        EntityKind::LargeFireball => Some(Vec3::new(1_000_000, 1_000_000, 1_000_000)),
        EntityKind::LeashFenceKnot => Some(Vec3::new(375_000, 500_000, 375_000)),
        EntityKind::LightningBolt => Some(Vec3::new(0, 0, 0)),
        EntityKind::LlamaSpit => Some(Vec3::new(250_000, 250_000, 250_000)),
        EntityKind::Minecart | EntityKind::MinecartChest | EntityKind::MinecartTnt | EntityKind::MinecartHopper | EntityKind::MinecartFurnace | EntityKind::MinecartSpawner | EntityKind::MinecartCommandBlock => Some(Vec3::new(980_000, 700_000, 980_000)),
        EntityKind::Parrot => Some(Vec3::new(500_000, 900_000, 500_000)),
        EntityKind::Phantom => Some(Vec3::new(900_000, 500_000, 900_000)),
        EntityKind::PiglinBrute => Some(Vec3::new(600_000, 1_950_000, 600_000)),
        EntityKind::Pillager => Some(Vec3::new(600_000, 1_950_000, 600_000)),
        EntityKind::PrimedTnt => Some(Vec3::new(980_000, 980_000, 980_000)),
        EntityKind::Pufferfish => Some(Vec3::new(700_000, 700_000, 700_000)),
        EntityKind::Ravager => Some(Vec3::new(1_950_000, 2_200_000, 1_950_000)),
        EntityKind::Salmon => Some(Vec3::new(700_000, 400_000, 700_000)),
        EntityKind::ShulkerBullet => Some(Vec3::new(312_500, 312_500, 312_500)),
        EntityKind::Silverfish => Some(Vec3::new(400_000, 300_000, 400_000)),
        EntityKind::SmallFireball => Some(Vec3::new(312_500, 312_500, 312_500)),
        EntityKind::SnowGolem => Some(Vec3::new(700_000, 1_900_000, 700_000)),
        EntityKind::Spider => Some(Vec3::new(1_400_000, 900_000, 1_400_000)),
        EntityKind::Stray => Some(Vec3::new(600_000, 1_990_000, 600_000)),
        EntityKind::ThrownEgg => Some(Vec3::new(250_000, 250_000, 250_000)),
        EntityKind::ThrownEnderpearl => Some(Vec3::new(250_000, 250_000, 250_000)),
        EntityKind::ThrownExperienceBottle => Some(Vec3::new(250_000, 250_000, 250_000)),
        EntityKind::ThrownSplashPotion | EntityKind::ThrownLingeringPotion => Some(Vec3::new(250_000, 250_000, 250_000)),
        EntityKind::ThrownTrident => Some(Vec3::new(500_000, 500_000, 500_000)),
        EntityKind::TraderLlama => Some(Vec3::new(900_000, 1_870_000, 900_000)),
        EntityKind::TropicalFish => Some(Vec3::new(500_000, 400_000, 500_000)),
        EntityKind::Vex => Some(Vec3::new(400_000, 800_000, 400_000)),
        EntityKind::Vindicator => Some(Vec3::new(600_000, 1_950_000, 600_000)),
        EntityKind::WitherBoss => Some(Vec3::new(900_000, 3_500_000, 900_000)),
        EntityKind::WitherSkeleton => Some(Vec3::new(700_000, 2_400_000, 700_000)),
        EntityKind::WitherSkull => Some(Vec3::new(312_500, 312_500, 312_500)),
        EntityKind::FishingHook => Some(Vec3::new(250_000, 250_000, 250_000)),
        _ => None,
    }
}

/// Gives an entity whose kind fixes its hitbox the shape of that size; the
/// shape of any other entity is left as it was.
pub fn update_constant_hitbox(shape: &mut HitboxShape, kind: EntityKind)
    ensures
        *final(shape) == (match constant_size(kind) {
            Some(size) => centered_shape(size),
            None => *old(shape),
        }),
{
    match constant_hitbox_size(kind) {
        Some(size) => shape.centered(size),
        None => {},
    }
}

/// The size of a warden in the given pose.
pub open spec fn warden_size(pose: Pose) -> Vec3 {
    match pose {
        Pose::Emerging | Pose::Digging => vec3(900_000, 1_000_000, 900_000),
        _ => vec3(900_000, 2_900_000, 900_000),
    }
}

/// Shapes a warden's hitbox after its pose: low while it emerges or digs.
pub fn update_warden_hitbox(shape: &mut HitboxShape, pose: Pose)
    ensures
        *final(shape) == centered_shape(warden_size(pose)),
{
    let size = match pose {
        Pose::Emerging | Pose::Digging => Vec3::new(900_000, 1_000_000, 900_000),
        _ => Vec3::new(900_000, 2_900_000, 900_000),
    };
    shape.centered(size);
}

/// Bit of an armor stand's client flags that makes it small.
pub const ARMOR_STAND_SMALL: i8 = 1;

/// Bit of an armor stand's client flags that makes it a marker.
pub const ARMOR_STAND_MARKER: i8 = 16;

/// The size of an armor stand with the given client flags: none for a
/// marker, half height for a small stand.
pub open spec fn armor_stand_size(flags: i8) -> Vec3 {
    if flags & ARMOR_STAND_MARKER != 0 {
        vec3(0, 0, 0)
    } else if flags & ARMOR_STAND_SMALL != 0 {
        vec3(500_000, 987_500, 500_000)
    } else {
        vec3(500_000, 1_975_000, 500_000)
    }
}

/// Shapes an armor stand's hitbox after its client flags.
pub fn update_armor_stand_hitbox(shape: &mut HitboxShape, flags: i8)
    ensures
        *final(shape) == centered_shape(armor_stand_size(flags)),
{
    let size = if flags & ARMOR_STAND_MARKER != 0 {
        Vec3::splat(0)
    } else if flags & ARMOR_STAND_SMALL != 0 {
        Vec3::new(500_000, 987_500, 500_000)
    } else {
        Vec3::new(500_000, 1_975_000, 500_000)
    };
    shape.centered(size);
}

/// The size of a child: half the adult size in every dimension, rounded
/// down to a whole micro-block where the adult's is odd (no size the rules
/// name is).
pub open spec fn child_size(child: bool, v: Vec3) -> Vec3 {
    if child {
        vec3(half(v.x as int), half(v.y as int), half(v.z as int))
    } else {
        v
    }
}

/// The size of an entity that is a child when `child` holds, of adult size
/// `v`: half of it, rounded down to a whole micro-block in a dimension
/// where `v` is odd.
pub fn child_hitbox(child: bool, v: Vec3) -> (r: Vec3)
    requires
        in_range(v),
    ensures
        r == child_size(child, v),
        in_range(r),
{
    if child {
        Vec3 { x: half_exec(v.x), y: half_exec(v.y), z: half_exec(v.z) }
    } else {
        v
    }
}

/// The adult size of an animal that grows up, if its kind is one of those;
/// a goat is smaller while it long-jumps.
pub open spec fn adult_size(kind: EntityKind, pose: Option<Pose>) -> Option<Vec3> {
    match kind {
        EntityKind::Bee => Some(vec3(700_000, 600_000, 700_000)),
        EntityKind::Camel => Some(vec3(1_700_000, 2_375_000, 1_700_000)),
        EntityKind::Chicken => Some(vec3(400_000, 700_000, 400_000)),
        EntityKind::Donkey => Some(vec3(1_500_000, 1_396_480, 1_500_000)),
        EntityKind::Fox => Some(vec3(600_000, 700_000, 600_000)),
        EntityKind::Hoglin => Some(vec3(1_396_480, 1_400_000, 1_396_480)),
        EntityKind::Horse | EntityKind::SkeletonHorse | EntityKind::ZombieHorse => Some(vec3(1_396_480, 1_600_000, 1_396_480)),
        EntityKind::Llama => Some(vec3(900_000, 1_870_000, 900_000)),
        EntityKind::Mule => Some(vec3(1_396_480, 1_600_000, 1_396_480)),
        EntityKind::MushroomCow => Some(vec3(900_000, 1_400_000, 900_000)),
        EntityKind::Ocelot => Some(vec3(600_000, 700_000, 600_000)),
        EntityKind::Panda => Some(vec3(1_300_000, 1_250_000, 1_300_000)),
        EntityKind::Pig => Some(vec3(900_000, 900_000, 900_000)),
        EntityKind::PolarBear => Some(vec3(1_400_000, 1_400_000, 1_400_000)),
        EntityKind::Rabbit => Some(vec3(400_000, 500_000, 400_000)),
        EntityKind::Sheep => Some(vec3(900_000, 1_300_000, 900_000)),
        EntityKind::Villager => Some(vec3(600_000, 1_950_000, 600_000)),
        EntityKind::Wolf => Some(vec3(600_000, 850_000, 600_000)),
        EntityKind::Goat => if pose == Some(Pose::LongJumping) {
            Some(vec3(630_000, 910_000, 630_000))
        } else {
            Some(vec3(900_000, 1_300_000, 900_000))
        },
        _ => None,
    }
}

/// The size of a turtle: a hatchling is not a scaled adult.
pub open spec fn turtle_size(child: bool) -> Vec3 {
    if child {
        vec3(360_000, 120_000, 360_000)
    } else {
        vec3(1_200_000, 400_000, 1_200_000)
    }
}

/// The size of an animal that grows up, if its kind is one of those.
pub open spec fn passive_child_size(kind: EntityKind, child: bool, pose: Option<Pose>) -> Option<
    Vec3,
> {
    if kind == EntityKind::Turtle {
        Some(turtle_size(child))
    } else {
        match adult_size(kind, pose) {
            Some(v) => Some(child_size(child, v)),
            None => None,
        }
    }
}

/// The adult size of an animal that grows up, if its kind is one of those.
pub fn adult_hitbox_size(kind: EntityKind, pose: Option<Pose>) -> (s: Option<Vec3>)
    ensures
        s == adult_size(kind, pose),
        s matches Some(v) ==> in_range(v),
{
    match kind {
        EntityKind::Bee => Some(Vec3::new(700_000, 600_000, 700_000)),
        EntityKind::Camel => Some(Vec3::new(1_700_000, 2_375_000, 1_700_000)),
        EntityKind::Chicken => Some(Vec3::new(400_000, 700_000, 400_000)),
        EntityKind::Donkey => Some(Vec3::new(1_500_000, 1_396_480, 1_500_000)),
        EntityKind::Fox => Some(Vec3::new(600_000, 700_000, 600_000)),
        EntityKind::Hoglin => Some(Vec3::new(1_396_480, 1_400_000, 1_396_480)),
        EntityKind::Horse | EntityKind::SkeletonHorse | EntityKind::ZombieHorse => Some(Vec3::new(1_396_480, 1_600_000, 1_396_480)),
        EntityKind::Llama => Some(Vec3::new(900_000, 1_870_000, 900_000)),
        EntityKind::Mule => Some(Vec3::new(1_396_480, 1_600_000, 1_396_480)),
        EntityKind::MushroomCow => Some(Vec3::new(900_000, 1_400_000, 900_000)),
        EntityKind::Ocelot => Some(Vec3::new(600_000, 700_000, 600_000)),
        EntityKind::Panda => Some(Vec3::new(1_300_000, 1_250_000, 1_300_000)),
        EntityKind::Pig => Some(Vec3::new(900_000, 900_000, 900_000)),
        EntityKind::PolarBear => Some(Vec3::new(1_400_000, 1_400_000, 1_400_000)),
        EntityKind::Rabbit => Some(Vec3::new(400_000, 500_000, 400_000)),
        EntityKind::Sheep => Some(Vec3::new(900_000, 1_300_000, 900_000)),
        EntityKind::Villager => Some(Vec3::new(600_000, 1_950_000, 600_000)),
        EntityKind::Wolf => Some(Vec3::new(600_000, 850_000, 600_000)),
        EntityKind::Goat => {
            let long_jumping = match pose {
                Some(Pose::LongJumping) => true,
                _ => false,
            };
            if long_jumping {
                Some(Vec3::new(630_000, 910_000, 630_000))
            } else {
                Some(Vec3::new(900_000, 1_300_000, 900_000))
            }
        },
        _ => None,
    }
}

/// The size of an animal that grows up, if its kind is one of those.
pub fn passive_child_hitbox_size(kind: EntityKind, child: bool, pose: Option<Pose>) -> (s: Option<
    Vec3,
>)
    ensures
        s == passive_child_size(kind, child, pose),
        s matches Some(v) ==> in_range(v),
{
    if let EntityKind::Turtle = kind {
        if child {
            Some(Vec3::new(360_000, 120_000, 360_000))
        } else {
            Some(Vec3::new(1_200_000, 400_000, 1_200_000))
        }
    } else {
        match adult_hitbox_size(kind, pose) {
            Some(big) => Some(child_hitbox(child, big)),
            None => None,
        }
    }
}

/// Shapes the hitbox of an animal that grows up after its age (and, for a
/// goat, its pose); the shape of any other entity is left as it was.
pub fn update_passive_child_hitbox(
    shape: &mut HitboxShape,
    kind: EntityKind,
    child: bool,
    pose: Option<Pose>,
)
    ensures
        *final(shape) == (match passive_child_size(kind, child, pose) {
            Some(size) => centered_shape(size),
            None => *old(shape),
        }),
{
    match passive_child_hitbox_size(kind, child, pose) {
        Some(size) => shape.centered(size),
        None => {},
    }
}

/// The adult size of a zombie.
pub open spec fn zombie_adult_size() -> Vec3 {
    vec3(600_000, 1_950_000, 600_000)
}

/// The adult size of a piglin.
pub open spec fn piglin_adult_size() -> Vec3 {
    vec3(600_000, 1_950_000, 600_000)
}

/// The adult size of a zoglin.
pub open spec fn zoglin_adult_size() -> Vec3 {
    vec3(1_396_480, 1_400_000, 1_396_480)
}

/// Shapes a zombie's hitbox after its age.
pub fn update_zombie_hitbox(shape: &mut HitboxShape, baby: bool)
    ensures
        *final(shape) == centered_shape(child_size(baby, zombie_adult_size())),
{
    let size = Vec3::new(600_000, 1_950_000, 600_000);
    shape.centered(child_hitbox(baby, size));
}

/// Shapes a piglin's hitbox after its age.
pub fn update_piglin_hitbox(shape: &mut HitboxShape, baby: bool)
    ensures
        *final(shape) == centered_shape(child_size(baby, piglin_adult_size())),
{
    let size = Vec3::new(600_000, 1_950_000, 600_000);
    shape.centered(child_hitbox(baby, size));
}

/// Shapes a zoglin's hitbox after its age.
pub fn update_zoglin_hitbox(shape: &mut HitboxShape, baby: bool)
    ensures
        *final(shape) == centered_shape(child_size(baby, zoglin_adult_size())),
{
    let size = Vec3::new(1_396_480, 1_400_000, 1_396_480);
    shape.centered(child_hitbox(baby, size));
}

/// The size of a player in the given pose.
pub open spec fn player_size(pose: Pose) -> Vec3 {
    match pose {
        Pose::Sleeping | Pose::Dying => vec3(200_000, 200_000, 200_000),
        Pose::FallFlying | Pose::Swimming | Pose::SpinAttack => vec3(600_000, 600_000, 600_000),
        Pose::Sneaking => vec3(600_000, 1_500_000, 600_000),
        _ => vec3(600_000, 1_800_000, 600_000),
    }
}

/// Shapes a player's hitbox after its pose.
pub fn update_player_hitbox(shape: &mut HitboxShape, pose: Pose)
    ensures
        *final(shape) == centered_shape(player_size(pose)),
{
    let size = match pose {
        Pose::Sleeping | Pose::Dying => Vec3::splat(200_000),
        Pose::FallFlying | Pose::Swimming | Pose::SpinAttack => Vec3::splat(600_000),
        Pose::Sneaking => Vec3::new(600_000, 1_500_000, 600_000),
        _ => Vec3::new(600_000, 1_800_000, 600_000),
    };
    shape.centered(size);
}

/// The edge of a slime's cubic hitbox per unit of its size.
pub const SLIME_EDGE_PER_SIZE: i64 = 520_200;

/// The size of a slime of the given size number.
pub open spec fn slime_size(size: i32) -> Vec3 {
    vec3(SLIME_EDGE_PER_SIZE * size, SLIME_EDGE_PER_SIZE * size, SLIME_EDGE_PER_SIZE * size)
}

/// Shapes a slime's hitbox after its size number: a cube that grows with it.
pub fn update_slime_hitbox(shape: &mut HitboxShape, size: i32)
    ensures
        *final(shape) == centered_shape(slime_size(size)),
{
    let s: i64 = SLIME_EDGE_PER_SIZE * (size as i64);
    shape.centered(Vec3::splat(s));
}

/// How far an item frame's center sits from its block's center, toward the
/// face it hangs on.
pub const ITEM_FRAME_OFFSET: i64 = 468_750;

/// The center of an item frame hanging with the given rotation.
pub open spec fn item_frame_center(rotation: i32) -> Vec3 {
    if rotation == 0 {
        vec3(500_000, 500_000 + ITEM_FRAME_OFFSET, 500_000)
    } else if rotation == 2 {
        vec3(500_000, 500_000, 500_000 + ITEM_FRAME_OFFSET)
    } else if rotation == 3 {
        vec3(500_000, 500_000, 500_000 - ITEM_FRAME_OFFSET)
    } else if rotation == 4 {
        vec3(500_000 + ITEM_FRAME_OFFSET, 500_000, 500_000)
    } else if rotation == 5 {
        vec3(500_000 - ITEM_FRAME_OFFSET, 500_000, 500_000)
    } else {
        vec3(500_000, 500_000 - ITEM_FRAME_OFFSET, 500_000)
    }
}

/// Half the extent of an item frame along x, y and z: thin along z for
/// rotations 2 and 3, thin along x for every other rotation.
pub open spec fn item_frame_half_extent(rotation: i32) -> Vec3 {
    if rotation == 2 || rotation == 3 {
        vec3(375_000, 375_000, 31_250)
    } else {
        vec3(31_250, 375_000, 375_000)
    }
}

/// The box of an item frame hanging with the given rotation.
pub open spec fn item_frame_box(rotation: i32) -> Aabb {
    let c = item_frame_center(rotation);
    let b = item_frame_half_extent(rotation);
    Aabb {
        min: vec3(c.x - b.x, c.y - b.y, c.z - b.z),
        max: vec3(c.x + b.x, c.y + b.y, c.z + b.z),
    }
}

/// Shapes an item frame's hitbox after its rotation.
pub fn update_item_frame_hitbox(shape: &mut HitboxShape, rotation: i32)
    ensures
        *final(shape) == HitboxShape(item_frame_box(rotation)),
{
    let mut center = Vec3::splat(500_000);
    if rotation == 0 {
        center.y = center.y + ITEM_FRAME_OFFSET;
    } else if rotation == 1 {
        center.y = center.y - ITEM_FRAME_OFFSET;
    } else if rotation == 2 {
        center.z = center.z + ITEM_FRAME_OFFSET;
    } else if rotation == 3 {
        center.z = center.z - ITEM_FRAME_OFFSET;
    } else if rotation == 4 {
        center.x = center.x + ITEM_FRAME_OFFSET;
    } else if rotation == 5 {
        center.x = center.x - ITEM_FRAME_OFFSET;
    } else {
        center.y = center.y - ITEM_FRAME_OFFSET;
    }
    let bounds = if rotation == 2 || rotation == 3 {
        Vec3::new(375_000, 375_000, 31_250)
    } else {
        Vec3::new(31_250, 375_000, 375_000)
    };
    shape.0 = Aabb::new(
        Vec3::new(center.x - bounds.x, center.y - bounds.y, center.z - bounds.z),
        Vec3::new(center.x + bounds.x, center.y + bounds.y, center.z + bounds.z),
    );
}

/// The paintings of the vanilla registry.
#[derive(Clone, Copy, Debug, PartialEq, Eq, Hash, Structural)]
pub enum PaintingKind {
    Alban,
    Aztec,
    Aztec2,
    Bomb,
    Kebab,
    Meditative,
    Plant,
    Wasteland,
    Graham,
    PrairieRide,
    Wanderer,
    Courbet,
    Creebet,
    Pool,
    Sea,
    Sunset,
    Baroque,
    Bust,
    Earth,
    Fire,
    Humble,
    Match,
    SkullAndRoses,
    Stage,
    Void,
    Water,
    Wind,
    Wither,
    Bouquet,
    Cavebird,
    Cotan,
    Endboss,
    Fern,
    Owlemons,
    Sunflowers,
    Tides,
    Backyard,
    Pond,
    Changing,
    Fighters,
    Finding,
    Lowmist,
    Passage,
    DonkeyKong,
    Skeleton,
    BurningSkull,
    Orb,
    Pigscene,
    Pointer,
    Unpacked,
}

/// A size in whole blocks.
#[derive(Clone, Copy, Debug, PartialEq, Eq, Hash, Default, Structural)]
pub struct UVec3 {
    pub x: u32,
    pub y: u32,
    pub z: u32,
}

/// The size with the given whole-block extents.
pub open spec fn uvec3(x: u32, y: u32, z: u32) -> UVec3 {
    UVec3 { x, y, z }
}

impl UVec3 {
    /// The size with the given whole-block extents.
    pub fn new(x: u32, y: u32, z: u32) -> (v: UVec3)
        ensures
            v == uvec3(x, y, z),
    {
        UVec3 { x, y, z }
    }
}

/// The size of a painting of the registry, in blocks: its width along x and
/// z and its height along y.
pub open spec fn painting_kind_bounds(kind: PaintingKind) -> UVec3 {
    match kind {
        PaintingKind::Alban
        | PaintingKind::Aztec
        | PaintingKind::Aztec2
        | PaintingKind::Bomb
        | PaintingKind::Kebab
        | PaintingKind::Meditative
        | PaintingKind::Plant
        | PaintingKind::Wasteland => uvec3(1, 1, 1),
        PaintingKind::Graham
        | PaintingKind::PrairieRide
        | PaintingKind::Wanderer => uvec3(1, 2, 1),
        PaintingKind::Courbet
        | PaintingKind::Creebet
        | PaintingKind::Pool
        | PaintingKind::Sea
        | PaintingKind::Sunset => uvec3(2, 1, 2),
        PaintingKind::Baroque
        | PaintingKind::Bust
        | PaintingKind::Earth
        | PaintingKind::Fire
        | PaintingKind::Humble
        | PaintingKind::Match
        | PaintingKind::SkullAndRoses
        | PaintingKind::Stage
        | PaintingKind::Void
        | PaintingKind::Water
        | PaintingKind::Wind
        | PaintingKind::Wither => uvec3(2, 2, 2),
        PaintingKind::Bouquet
        | PaintingKind::Cavebird
        | PaintingKind::Cotan
        | PaintingKind::Endboss
        | PaintingKind::Fern
        | PaintingKind::Owlemons
        | PaintingKind::Sunflowers
        | PaintingKind::Tides => uvec3(3, 3, 3),
        PaintingKind::Backyard
        | PaintingKind::Pond => uvec3(3, 4, 3),
        PaintingKind::Changing
        | PaintingKind::Fighters
        | PaintingKind::Finding
        | PaintingKind::Lowmist
        | PaintingKind::Passage => uvec3(4, 2, 4),
        PaintingKind::DonkeyKong
        | PaintingKind::Skeleton => uvec3(4, 3, 4),
        PaintingKind::BurningSkull
        | PaintingKind::Orb
        | PaintingKind::Pigscene
        | PaintingKind::Pointer
        | PaintingKind::Unpacked => uvec3(4, 4, 4),
    }
}

/// The size of a painting of the registry, in blocks.
pub fn painting_kind_hitbox_bounds(kind: PaintingKind) -> (b: UVec3)
    ensures
        b == painting_kind_bounds(kind),
{
    match kind {
        PaintingKind::Alban
        | PaintingKind::Aztec
        | PaintingKind::Aztec2
        | PaintingKind::Bomb
        | PaintingKind::Kebab
        | PaintingKind::Meditative
        | PaintingKind::Plant
        | PaintingKind::Wasteland => UVec3::new(1, 1, 1),
        PaintingKind::Graham
        | PaintingKind::PrairieRide
        | PaintingKind::Wanderer => UVec3::new(1, 2, 1),
        PaintingKind::Courbet
        | PaintingKind::Creebet
        | PaintingKind::Pool
        | PaintingKind::Sea
        | PaintingKind::Sunset => UVec3::new(2, 1, 2),
        PaintingKind::Baroque
        | PaintingKind::Bust
        | PaintingKind::Earth
        | PaintingKind::Fire
        | PaintingKind::Humble
        | PaintingKind::Match
        | PaintingKind::SkullAndRoses
        | PaintingKind::Stage
        | PaintingKind::Void
        | PaintingKind::Water
        | PaintingKind::Wind
        | PaintingKind::Wither => UVec3::new(2, 2, 2),
        PaintingKind::Bouquet
        | PaintingKind::Cavebird
        | PaintingKind::Cotan
        | PaintingKind::Endboss
        | PaintingKind::Fern
        | PaintingKind::Owlemons
        | PaintingKind::Sunflowers
        | PaintingKind::Tides => UVec3::new(3, 3, 3),
        PaintingKind::Backyard
        | PaintingKind::Pond => UVec3::new(3, 4, 3),
        PaintingKind::Changing
        | PaintingKind::Fighters
        | PaintingKind::Finding
        | PaintingKind::Lowmist
        | PaintingKind::Passage => UVec3::new(4, 2, 4),
        PaintingKind::DonkeyKong
        | PaintingKind::Skeleton => UVec3::new(4, 3, 4),
        PaintingKind::BurningSkull
        | PaintingKind::Orb
        | PaintingKind::Pigscene
        | PaintingKind::Pointer
        | PaintingKind::Unpacked => UVec3::new(4, 4, 4),
    }
}

/// A dimension given by the data of a painting variant: kept when positive,
/// one block otherwise.
pub open spec fn positive_or_one(n: i32) -> u32 {
    if n > 0 {
        n as u32
    } else {
        1
    }
}

/// The size of a painting whose variant is given inline with its width and
/// height.
pub fn inline_painting_hitbox_bounds(width: i32, height: i32) -> (b: UVec3)
    ensures
        b == uvec3(positive_or_one(width), positive_or_one(height), positive_or_one(width)),
{
    let w: u32 = if width > 0 {
        width as u32
    } else {
        1
    };
    let h: u32 = if height > 0 {
        height as u32
    } else {
        1
    };
    UVec3::new(w, h, w)
}

/// The variant of a painting: a registry entry, resolved to its kind where
/// the id names one, or a definition given inline.
#[derive(Clone, Copy, Debug, PartialEq, Eq, Structural)]
pub enum PaintingVariant {
    Registered(Option<PaintingKind>),
    Inline { width: i32, height: i32 },
}

/// The size of a painting of the given variant; an id that names no known
/// painting counts as one block.
pub open spec fn painting_bounds(v: PaintingVariant) -> UVec3 {
    match v {
        PaintingVariant::Registered(Some(kind)) => painting_kind_bounds(kind),
        PaintingVariant::Registered(None) => uvec3(1, 1, 1),
        PaintingVariant::Inline { width, height } => uvec3(
            positive_or_one(width),
            positive_or_one(height),
            positive_or_one(width),
        ),
    }
}

/// The size of a painting of the given variant.
pub fn painting_hitbox_bounds(v: &PaintingVariant) -> (b: UVec3)
    ensures
        b == painting_bounds(*v),
{
    match v {
        PaintingVariant::Registered(Some(kind)) => painting_kind_hitbox_bounds(*kind),
        PaintingVariant::Registered(None) => UVec3::new(1, 1, 1),
        PaintingVariant::Inline { width, height } => inline_painting_hitbox_bounds(*width, *height),
    }
}

/// Which way a painting faces, from the quarter of the compass its yaw
/// falls in (0 south, 1 west, 2 north, anything else east): the facing
/// direction's x and z, and the x and z of the direction a quarter turn
/// counter-clockwise from it.
pub open spec fn painting_facing(quadrant: u8) -> (int, int, int, int) {
    if quadrant == 0 {
        (0, 1, 1, 0)
    } else if quadrant == 1 {
        (-1, 0, 0, 1)
    } else if quadrant == 2 {
        (0, -1, -1, 0)
    } else {
        (1, 0, 0, -1)
    }
}

/// How far a painting's center sits from its block's center, against the
/// direction it faces.
pub const PAINTING_OFFSET: i64 = 468_750;

/// The thickness of a painting.
pub const PAINTING_THICKNESS: i64 = 62_500;

/// Half a block when `n` is even: a painting of even extent is centered on
/// a block edge rather than a block center.
pub open spec fn even_shift(n: u32) -> int {
    if n % 2 == 0 {
        500_000
    } else {
        0
    }
}

/// The center of a painting of the given size facing the given way.
pub open spec fn painting_center(bounds: UVec3, quadrant: u8) -> Vec3 {
    let (fx, fz, cx, cz) = painting_facing(quadrant);
    vec3(
        500_000 - fx * PAINTING_OFFSET + cx * even_shift(bounds.x),
        500_000 + even_shift(bounds.y),
        500_000 - fz * PAINTING_OFFSET + cz * even_shift(bounds.z),
    )
}

/// The extent of a painting of the given size facing the given way: thin
/// along the axis it faces.
pub open spec fn painting_extent(bounds: UVec3, quadrant: u8) -> Vec3 {
    let (fx, fz, cx, cz) = painting_facing(quadrant);
    if fz == 0 {
        vec3(PAINTING_THICKNESS as int, bounds.y * UNITS_PER_BLOCK, bounds.z * UNITS_PER_BLOCK)
    } else {
        vec3(bounds.x * UNITS_PER_BLOCK, bounds.y * UNITS_PER_BLOCK, PAINTING_THICKNESS as int)
    }
}

/// The box of a painting of the given size facing the given way.
pub open spec fn painting_box(bounds: UVec3, quadrant: u8) -> Aabb {
    let c = painting_center(bounds, quadrant);
    let e = painting_extent(bounds, quadrant);
    Aabb {
        min: vec3(c.x - half(e.x as int), c.y - half(e.y as int), c.z - half(e.z as int)),
        max: vec3(c.x + half(e.x as int), c.y + half(e.y as int), c.z + half(e.z as int)),
    }
}

/// Half a block when `n` is even, nothing otherwise.
fn even_shift_exec(n: u32) -> (s: i64)
    ensures
        s == even_shift(n),
{
    if n % 2 == 0 {
        500_000
    } else {
        0
    }
}

/// Shapes a painting's hitbox after its variant and the quarter of the
/// compass its yaw falls in.
pub fn update_painting_hitbox(shape: &mut HitboxShape, variant: &PaintingVariant, quadrant: u8)
    ensures
        *final(shape) == HitboxShape(painting_box(painting_bounds(*variant), quadrant)),
{
    let bounds = painting_hitbox_bounds(variant);
    let (fx, fz, cx, cz): (i64, i64, i64, i64) = if quadrant == 0 {
        (0, 1, 1, 0)
    } else if quadrant == 1 {
        (-1, 0, 0, 1)
    } else if quadrant == 2 {
        (0, -1, -1, 0)
    } else {
        (1, 0, 0, -1)
    };
    let center = Vec3::new(
        500_000 - fx * PAINTING_OFFSET + cx * even_shift_exec(bounds.x),
        500_000 + even_shift_exec(bounds.y),
        500_000 - fz * PAINTING_OFFSET + cz * even_shift_exec(bounds.z),
    );
    let bx: i64 = (bounds.x as i64) * UNITS_PER_BLOCK;
    let by: i64 = (bounds.y as i64) * UNITS_PER_BLOCK;
    let bz: i64 = (bounds.z as i64) * UNITS_PER_BLOCK;
    let extent = if fz == 0 {
        Vec3::new(PAINTING_THICKNESS, by, bz)
    } else {
        Vec3::new(bx, by, PAINTING_THICKNESS)
    };
    let hx = half_exec(extent.x);
    let hy = half_exec(extent.y);
    let hz = half_exec(extent.z);
    shape.0 = Aabb::new(
        Vec3::new(center.x - hx, center.y - hy, center.z - hz),
        Vec3::new(center.x + hx, center.y + hy, center.z + hz),
    );
}

/// The faces a block can be attached by.
#[derive(Clone, Copy, Debug, PartialEq, Eq, Hash, Structural)]
pub enum Direction {
    Down,
    Up,
    North,
    South,
    West,
    East,
}

/// An axis of the world.
#[derive(Clone, Copy, Debug, PartialEq, Eq, Hash, Structural)]
pub enum Axis {
    X,
    Y,
    Z,
}

/// A face of a box: the one at the high end of `axis` when `high`, the one
/// at the low end otherwise.
#[derive(Clone, Copy, Debug, PartialEq, Eq, Hash, Structural)]
pub struct BoxFace {
    pub axis: Axis,
    pub high: bool,
}

/// The face of a shulker's box that moves out as its lid opens: the one
/// opposite the face the shulker is attached by.
pub open spec fn shulker_lid_face(attached: Direction) -> BoxFace {
    match attached {
        Direction::Down => BoxFace { axis: Axis::Y, high: true },
        Direction::Up => BoxFace { axis: Axis::Y, high: false },
        Direction::North => BoxFace { axis: Axis::Z, high: true },
        Direction::South => BoxFace { axis: Axis::Z, high: false },
        Direction::West => BoxFace { axis: Axis::X, high: true },
        Direction::East => BoxFace { axis: Axis::X, high: false },
    }
}

/// The face of a shulker's box that moves out as its lid opens.
pub fn shulker_peek_face(attached: Direction) -> (f: BoxFace)
    ensures
        f == shulker_lid_face(attached),
{
    match attached {
        Direction::Down => BoxFace { axis: Axis::Y, high: true },
        Direction::Up => BoxFace { axis: Axis::Y, high: false },
        Direction::North => BoxFace { axis: Axis::Z, high: true },
        Direction::South => BoxFace { axis: Axis::Z, high: false },
        Direction::West => BoxFace { axis: Axis::X, high: true },
        Direction::East => BoxFace { axis: Axis::X, high: false },
    }
}

/// The extent of a box along each axis.
pub open spec fn box_extent(b: Aabb) -> (int, int, int) {
    (b.max.x - b.min.x, b.max.y - b.min.y, b.max.z - b.min.z)
}

/// A shape of a size with no negative extent stands on the entity's
/// position, centered in x and z, and is exactly as tall as the size says;
/// its width and depth are the size's, rounded down to an even number of
/// micro-blocks.
pub proof fn law_centered_shape(size: Vec3)
    requires
        in_range(size),
        size.x >= 0,
        size.y >= 0,
        size.z >= 0,
    ensures
        centered_shape(size).0.min.y == 0,
        centered_shape(size).0.max.y == size.y,
        centered_shape(size).0.min.x == -centered_shape(size).0.max.x,
        centered_shape(size).0.min.z == -centered_shape(size).0.max.z,
        box_extent(centered_shape(size).0).0 == 2 * half(size.x as int),
        box_extent(centered_shape(size).0).2 == 2 * half(size.z as int),
        size.x % 2 == 0 ==> box_extent(centered_shape(size).0).0 == size.x,
        size.z % 2 == 0 ==> box_extent(centered_shape(size).0).2 == size.z,
{
}

/// A young animal's hitbox is exactly half its adult's in every dimension,
/// save a turtle's.
pub proof fn law_children_are_half_size(kind: EntityKind, pose: Option<Pose>)
    requires
        kind != EntityKind::Turtle,
    ensures
        adult_size(kind, pose) matches Some(a) ==> passive_child_size(kind, true, pose) matches Some(
            c,
        ) && 2 * c.x == a.x && 2 * c.y == a.y && 2 * c.z == a.z,
        adult_size(kind, pose) matches Some(a) ==> passive_child_size(kind, false, pose) == Some(a),
        adult_size(kind, pose) is None ==> passive_child_size(kind, true, pose) is None,
{
}

/// A baby zombie, piglin or zoglin is exactly half the size of an adult.
pub proof fn law_babies_are_half_size()
    ensures
        2 * child_size(true, zombie_adult_size()).x == zombie_adult_size().x,
        2 * child_size(true, zombie_adult_size()).y == zombie_adult_size().y,
        2 * child_size(true, zombie_adult_size()).z == zombie_adult_size().z,
        2 * child_size(true, piglin_adult_size()).x == piglin_adult_size().x,
        2 * child_size(true, piglin_adult_size()).y == piglin_adult_size().y,
        2 * child_size(true, piglin_adult_size()).z == piglin_adult_size().z,
        2 * child_size(true, zoglin_adult_size()).x == zoglin_adult_size().x,
        2 * child_size(true, zoglin_adult_size()).y == zoglin_adult_size().y,
        2 * child_size(true, zoglin_adult_size()).z == zoglin_adult_size().z,
{
}

/// Whatever its rotation, an item frame is a sixteenth of a block thick and
/// three quarters of a block in its other two dimensions.
pub proof fn law_item_frame_extent(rotation: i32)
    ensures
        (rotation == 2 || rotation == 3) ==> box_extent(item_frame_box(rotation)) == (
            750_000int,
            750_000int,
            62_500int,
        ),
        !(rotation == 2 || rotation == 3) ==> box_extent(item_frame_box(rotation)) == (
            62_500int,
            750_000int,
            750_000int,
        ),
{
}

/// A painting is a sixteenth of a block thick along the axis it faces, and
/// covers its full size in blocks along the other two.
pub proof fn law_painting_extent(bounds: UVec3, quadrant: u8)
    ensures
        (quadrant == 0 || quadrant == 2) ==> box_extent(painting_box(bounds, quadrant)) == (
            bounds.x * UNITS_PER_BLOCK,
            bounds.y * UNITS_PER_BLOCK,
            PAINTING_THICKNESS as int,
        ),
        !(quadrant == 0 || quadrant == 2) ==> box_extent(painting_box(bounds, quadrant)) == (
            PAINTING_THICKNESS as int,
            bounds.y * UNITS_PER_BLOCK,
            bounds.z * UNITS_PER_BLOCK,
        ),
{
}

/// The hitbox sizes the rules fix by kind alone, in micro-blocks: each kind
/// of the table has its vanilla width, height and depth, and every other
/// kind has none.
pub proof fn law_constant_sizes()
    ensures
        constant_size(EntityKind::Allay) == Some(vec3(600_000, 350_000, 600_000)),
        constant_size(EntityKind::Arrow) == Some(vec3(500_000, 500_000, 500_000)),
        constant_size(EntityKind::Axolotl) == Some(vec3(1_300_000, 600_000, 1_300_000)),
        constant_size(EntityKind::Bat) == Some(vec3(500_000, 900_000, 500_000)),
        constant_size(EntityKind::Bee) is None,
        constant_size(EntityKind::Blaze) == Some(vec3(600_000, 1_800_000, 600_000)),
        constant_size(EntityKind::Boat) == Some(vec3(1_375_000, 562_500, 1_375_000)),
        constant_size(EntityKind::Camel) is None,
        constant_size(EntityKind::Cat) == Some(vec3(600_000, 700_000, 600_000)),
        constant_size(EntityKind::CaveSpider) == Some(vec3(700_000, 500_000, 700_000)),
        constant_size(EntityKind::ChestBoat) == Some(vec3(1_375_000, 562_500, 1_375_000)),
        constant_size(EntityKind::Chicken) is None,
        constant_size(EntityKind::Cod) == Some(vec3(500_000, 300_000, 500_000)),
        constant_size(EntityKind::Creeper) == Some(vec3(600_000, 1_700_000, 600_000)),
        constant_size(EntityKind::Dolphin) == Some(vec3(900_000, 600_000, 900_000)),
        constant_size(EntityKind::Donkey) is None,
        constant_size(EntityKind::DragonFireball) == Some(vec3(1_000_000, 1_000_000, 1_000_000)),
        constant_size(EntityKind::ElderGuardian) == Some(vec3(1_997_500, 1_997_500, 1_997_500)),
        constant_size(EntityKind::EndCrystal) == Some(vec3(2_000_000, 2_000_000, 2_000_000)),
        constant_size(EntityKind::EnderDragon) == Some(vec3(16_000_000, 8_000_000, 16_000_000)),
        constant_size(EntityKind::EnderMan) == Some(vec3(600_000, 2_900_000, 600_000)),
        constant_size(EntityKind::Endermite) == Some(vec3(400_000, 300_000, 400_000)),
        constant_size(EntityKind::Evoker) == Some(vec3(600_000, 1_950_000, 600_000)),
        constant_size(EntityKind::EvokerFangs) == Some(vec3(500_000, 800_000, 500_000)),
        constant_size(EntityKind::ExperienceOrb) == Some(vec3(500_000, 500_000, 500_000)),
        constant_size(EntityKind::EyeOfEnder) == Some(vec3(250_000, 250_000, 250_000)),
        constant_size(EntityKind::FallingBlock) == Some(vec3(980_000, 980_000, 980_000)),
        constant_size(EntityKind::FireworkRocket) == Some(vec3(250_000, 250_000, 250_000)),
        constant_size(EntityKind::FishingHook) == Some(vec3(250_000, 250_000, 250_000)),
        constant_size(EntityKind::Fox) is None,
        constant_size(EntityKind::Frog) == Some(vec3(500_000, 500_000, 500_000)),
        constant_size(EntityKind::Ghast) == Some(vec3(4_000_000, 4_000_000, 4_000_000)),
        constant_size(EntityKind::Giant) == Some(vec3(3_600_000, 12_000_000, 3_600_000)),
        constant_size(EntityKind::GlowSquid) == Some(vec3(800_000, 800_000, 800_000)),
        constant_size(EntityKind::Goat) is None,
        constant_size(EntityKind::Guardian) == Some(vec3(850_000, 850_000, 850_000)),
        constant_size(EntityKind::Hoglin) is None,
        constant_size(EntityKind::Horse) is None,
        constant_size(EntityKind::Illusioner) == Some(vec3(600_000, 1_950_000, 600_000)),
        constant_size(EntityKind::IronGolem) == Some(vec3(1_400_000, 2_700_000, 1_400_000)),
        constant_size(EntityKind::Item) == Some(vec3(250_000, 250_000, 250_000)),
        constant_size(EntityKind::LargeFireball) == Some(vec3(1_000_000, 1_000_000, 1_000_000)),
        constant_size(EntityKind::LeashFenceKnot) == Some(vec3(375_000, 500_000, 375_000)),
        constant_size(EntityKind::LightningBolt) == Some(vec3(0, 0, 0)),
        constant_size(EntityKind::Llama) is None,
        constant_size(EntityKind::LlamaSpit) == Some(vec3(250_000, 250_000, 250_000)),
        constant_size(EntityKind::Minecart) == Some(vec3(980_000, 700_000, 980_000)),
        constant_size(EntityKind::MinecartChest) == Some(vec3(980_000, 700_000, 980_000)),
        constant_size(EntityKind::MinecartCommandBlock) == Some(vec3(980_000, 700_000, 980_000)),
        constant_size(EntityKind::MinecartFurnace) == Some(vec3(980_000, 700_000, 980_000)),
        constant_size(EntityKind::MinecartHopper) == Some(vec3(980_000, 700_000, 980_000)),
        constant_size(EntityKind::MinecartSpawner) == Some(vec3(980_000, 700_000, 980_000)),
        constant_size(EntityKind::MinecartTnt) == Some(vec3(980_000, 700_000, 980_000)),
        constant_size(EntityKind::Mule) is None,
        constant_size(EntityKind::MushroomCow) is None,
        constant_size(EntityKind::Ocelot) is None,
        constant_size(EntityKind::Panda) is None,
        constant_size(EntityKind::Parrot) == Some(vec3(500_000, 900_000, 500_000)),
        constant_size(EntityKind::Phantom) == Some(vec3(900_000, 500_000, 900_000)),
        constant_size(EntityKind::Pig) is None,
        constant_size(EntityKind::PiglinBrute) == Some(vec3(600_000, 1_950_000, 600_000)),
        constant_size(EntityKind::Pillager) == Some(vec3(600_000, 1_950_000, 600_000)),
        constant_size(EntityKind::PolarBear) is None,
        constant_size(EntityKind::PrimedTnt) == Some(vec3(980_000, 980_000, 980_000)),
        constant_size(EntityKind::Pufferfish) == Some(vec3(700_000, 700_000, 700_000)),
        constant_size(EntityKind::Rabbit) is None,
        constant_size(EntityKind::Ravager) == Some(vec3(1_950_000, 2_200_000, 1_950_000)),
        constant_size(EntityKind::Salmon) == Some(vec3(700_000, 400_000, 700_000)),
        constant_size(EntityKind::Sheep) is None,
        constant_size(EntityKind::ShulkerBullet) == Some(vec3(312_500, 312_500, 312_500)),
        constant_size(EntityKind::Silverfish) == Some(vec3(400_000, 300_000, 400_000)),
        constant_size(EntityKind::SkeletonHorse) is None,
        constant_size(EntityKind::SmallFireball) == Some(vec3(312_500, 312_500, 312_500)),
        constant_size(EntityKind::SnowGolem) == Some(vec3(700_000, 1_900_000, 700_000)),
        constant_size(EntityKind::SpectralArrow) == Some(vec3(500_000, 500_000, 500_000)),
        constant_size(EntityKind::Spider) == Some(vec3(1_400_000, 900_000, 1_400_000)),
        constant_size(EntityKind::Squid) == Some(vec3(800_000, 800_000, 800_000)),
        constant_size(EntityKind::Stray) == Some(vec3(600_000, 1_990_000, 600_000)),
        constant_size(EntityKind::Tadpole) == Some(vec3(400_000, 300_000, 400_000)),
        constant_size(EntityKind::ThrownEgg) == Some(vec3(250_000, 250_000, 250_000)),
        constant_size(EntityKind::ThrownEnderpearl) == Some(vec3(250_000, 250_000, 250_000)),
        constant_size(EntityKind::ThrownExperienceBottle) == Some(vec3(250_000, 250_000, 250_000)),
        constant_size(EntityKind::ThrownLingeringPotion) == Some(vec3(250_000, 250_000, 250_000)),
        constant_size(EntityKind::ThrownSplashPotion) == Some(vec3(250_000, 250_000, 250_000)),
        constant_size(EntityKind::ThrownTrident) == Some(vec3(500_000, 500_000, 500_000)),
        constant_size(EntityKind::TraderLlama) == Some(vec3(900_000, 1_870_000, 900_000)),
        constant_size(EntityKind::TropicalFish) == Some(vec3(500_000, 400_000, 500_000)),
        constant_size(EntityKind::Turtle) is None,
        constant_size(EntityKind::Vex) == Some(vec3(400_000, 800_000, 400_000)),
        constant_size(EntityKind::Villager) is None,
        constant_size(EntityKind::Vindicator) == Some(vec3(600_000, 1_950_000, 600_000)),
        constant_size(EntityKind::WitherBoss) == Some(vec3(900_000, 3_500_000, 900_000)),
        constant_size(EntityKind::WitherSkeleton) == Some(vec3(700_000, 2_400_000, 700_000)),
        constant_size(EntityKind::WitherSkull) == Some(vec3(312_500, 312_500, 312_500)),
        constant_size(EntityKind::Wolf) is None,
        constant_size(EntityKind::ZombieHorse) is None,
        constant_size(EntityKind::Other) is None,
{
}

/// The adult sizes of the animals that grow up, in micro-blocks; a goat is
/// smaller while it long-jumps, and every other kind has none.
pub proof fn law_adult_sizes(pose: Option<Pose>)
    ensures
        adult_size(EntityKind::Allay, pose) is None,
        adult_size(EntityKind::Arrow, pose) is None,
        adult_size(EntityKind::Axolotl, pose) is None,
        adult_size(EntityKind::Bat, pose) is None,
        adult_size(EntityKind::Bee, pose) == Some(vec3(700_000, 600_000, 700_000)),
        adult_size(EntityKind::Blaze, pose) is None,
        adult_size(EntityKind::Boat, pose) is None,
        adult_size(EntityKind::Camel, pose) == Some(vec3(1_700_000, 2_375_000, 1_700_000)),
        adult_size(EntityKind::Cat, pose) is None,
        adult_size(EntityKind::CaveSpider, pose) is None,
        adult_size(EntityKind::ChestBoat, pose) is None,
        adult_size(EntityKind::Chicken, pose) == Some(vec3(400_000, 700_000, 400_000)),
        adult_size(EntityKind::Cod, pose) is None,
        adult_size(EntityKind::Creeper, pose) is None,
        adult_size(EntityKind::Dolphin, pose) is None,
        adult_size(EntityKind::Donkey, pose) == Some(vec3(1_500_000, 1_396_480, 1_500_000)),
        adult_size(EntityKind::DragonFireball, pose) is None,
        adult_size(EntityKind::ElderGuardian, pose) is None,
        adult_size(EntityKind::EndCrystal, pose) is None,
        adult_size(EntityKind::EnderDragon, pose) is None,
        adult_size(EntityKind::EnderMan, pose) is None,
        adult_size(EntityKind::Endermite, pose) is None,
        adult_size(EntityKind::Evoker, pose) is None,
        adult_size(EntityKind::EvokerFangs, pose) is None,
        adult_size(EntityKind::ExperienceOrb, pose) is None,
        adult_size(EntityKind::EyeOfEnder, pose) is None,
        adult_size(EntityKind::FallingBlock, pose) is None,
        adult_size(EntityKind::FireworkRocket, pose) is None,
        adult_size(EntityKind::FishingHook, pose) is None,
        adult_size(EntityKind::Fox, pose) == Some(vec3(600_000, 700_000, 600_000)),
        adult_size(EntityKind::Frog, pose) is None,
        adult_size(EntityKind::Ghast, pose) is None,
        adult_size(EntityKind::Giant, pose) is None,
        adult_size(EntityKind::GlowSquid, pose) is None,
        pose == Some(Pose::LongJumping) ==> adult_size(EntityKind::Goat, pose) == Some(vec3(630_000, 910_000, 630_000)),
        pose != Some(Pose::LongJumping) ==> adult_size(EntityKind::Goat, pose) == Some(vec3(900_000, 1_300_000, 900_000)),
        adult_size(EntityKind::Guardian, pose) is None,
        adult_size(EntityKind::Hoglin, pose) == Some(vec3(1_396_480, 1_400_000, 1_396_480)),
        adult_size(EntityKind::Horse, pose) == Some(vec3(1_396_480, 1_600_000, 1_396_480)),
        adult_size(EntityKind::Illusioner, pose) is None,
        adult_size(EntityKind::IronGolem, pose) is None,
        adult_size(EntityKind::Item, pose) is None,
        adult_size(EntityKind::LargeFireball, pose) is None,
        adult_size(EntityKind::LeashFenceKnot, pose) is None,
        adult_size(EntityKind::LightningBolt, pose) is None,
        adult_size(EntityKind::Llama, pose) == Some(vec3(900_000, 1_870_000, 900_000)),
        adult_size(EntityKind::LlamaSpit, pose) is None,
        adult_size(EntityKind::Minecart, pose) is None,
        adult_size(EntityKind::MinecartChest, pose) is None,
        adult_size(EntityKind::MinecartCommandBlock, pose) is None,
        adult_size(EntityKind::MinecartFurnace, pose) is None,
        adult_size(EntityKind::MinecartHopper, pose) is None,
        adult_size(EntityKind::MinecartSpawner, pose) is None,
        adult_size(EntityKind::MinecartTnt, pose) is None,
        adult_size(EntityKind::Mule, pose) == Some(vec3(1_396_480, 1_600_000, 1_396_480)),
        adult_size(EntityKind::MushroomCow, pose) == Some(vec3(900_000, 1_400_000, 900_000)),
        adult_size(EntityKind::Ocelot, pose) == Some(vec3(600_000, 700_000, 600_000)),
        adult_size(EntityKind::Panda, pose) == Some(vec3(1_300_000, 1_250_000, 1_300_000)),
        adult_size(EntityKind::Parrot, pose) is None,
        adult_size(EntityKind::Phantom, pose) is None,
        adult_size(EntityKind::Pig, pose) == Some(vec3(900_000, 900_000, 900_000)),
        adult_size(EntityKind::PiglinBrute, pose) is None,
        adult_size(EntityKind::Pillager, pose) is None,
        adult_size(EntityKind::PolarBear, pose) == Some(vec3(1_400_000, 1_400_000, 1_400_000)),
        adult_size(EntityKind::PrimedTnt, pose) is None,
        adult_size(EntityKind::Pufferfish, pose) is None,
        adult_size(EntityKind::Rabbit, pose) == Some(vec3(400_000, 500_000, 400_000)),
        adult_size(EntityKind::Ravager, pose) is None,
        adult_size(EntityKind::Salmon, pose) is None,
        adult_size(EntityKind::Sheep, pose) == Some(vec3(900_000, 1_300_000, 900_000)),
        adult_size(EntityKind::ShulkerBullet, pose) is None,
        adult_size(EntityKind::Silverfish, pose) is None,
        adult_size(EntityKind::SkeletonHorse, pose) == Some(vec3(1_396_480, 1_600_000, 1_396_480)),
        adult_size(EntityKind::SmallFireball, pose) is None,
        adult_size(EntityKind::SnowGolem, pose) is None,
        adult_size(EntityKind::SpectralArrow, pose) is None,
        adult_size(EntityKind::Spider, pose) is None,
        adult_size(EntityKind::Squid, pose) is None,
        adult_size(EntityKind::Stray, pose) is None,
        adult_size(EntityKind::Tadpole, pose) is None,
        adult_size(EntityKind::ThrownEgg, pose) is None,
        adult_size(EntityKind::ThrownEnderpearl, pose) is None,
        adult_size(EntityKind::ThrownExperienceBottle, pose) is None,
        adult_size(EntityKind::ThrownLingeringPotion, pose) is None,
        adult_size(EntityKind::ThrownSplashPotion, pose) is None,
        adult_size(EntityKind::ThrownTrident, pose) is None,
        adult_size(EntityKind::TraderLlama, pose) is None,
        adult_size(EntityKind::TropicalFish, pose) is None,
        adult_size(EntityKind::Turtle, pose) is None,
        adult_size(EntityKind::Vex, pose) is None,
        adult_size(EntityKind::Villager, pose) == Some(vec3(600_000, 1_950_000, 600_000)),
        adult_size(EntityKind::Vindicator, pose) is None,
        adult_size(EntityKind::WitherBoss, pose) is None,
        adult_size(EntityKind::WitherSkeleton, pose) is None,
        adult_size(EntityKind::WitherSkull, pose) is None,
        adult_size(EntityKind::Wolf, pose) == Some(vec3(600_000, 850_000, 600_000)),
        adult_size(EntityKind::ZombieHorse, pose) == Some(vec3(1_396_480, 1_600_000, 1_396_480)),
        adult_size(EntityKind::Other, pose) is None,
        passive_child_size(EntityKind::Turtle, true, pose) == Some(vec3(360_000, 120_000, 360_000)),
        passive_child_size(EntityKind::Turtle, false, pose) == Some(vec3(1_200_000, 400_000, 1_200_000)),
{
}

/// The registry paintings' sizes in blocks: each spans its vanilla width
/// along x and z and its vanilla height along y.
pub proof fn law_painting_sizes()
    ensures
        painting_kind_bounds(PaintingKind::Alban) == uvec3(1, 1, 1),
        painting_kind_bounds(PaintingKind::Aztec) == uvec3(1, 1, 1),
        painting_kind_bounds(PaintingKind::Aztec2) == uvec3(1, 1, 1),
        painting_kind_bounds(PaintingKind::Backyard) == uvec3(3, 4, 3),
        painting_kind_bounds(PaintingKind::Baroque) == uvec3(2, 2, 2),
        painting_kind_bounds(PaintingKind::Bomb) == uvec3(1, 1, 1),
        painting_kind_bounds(PaintingKind::Bouquet) == uvec3(3, 3, 3),
        painting_kind_bounds(PaintingKind::BurningSkull) == uvec3(4, 4, 4),
        painting_kind_bounds(PaintingKind::Bust) == uvec3(2, 2, 2),
        painting_kind_bounds(PaintingKind::Cavebird) == uvec3(3, 3, 3),
        painting_kind_bounds(PaintingKind::Changing) == uvec3(4, 2, 4),
        painting_kind_bounds(PaintingKind::Cotan) == uvec3(3, 3, 3),
        painting_kind_bounds(PaintingKind::Courbet) == uvec3(2, 1, 2),
        painting_kind_bounds(PaintingKind::Creebet) == uvec3(2, 1, 2),
        painting_kind_bounds(PaintingKind::DonkeyKong) == uvec3(4, 3, 4),
        painting_kind_bounds(PaintingKind::Earth) == uvec3(2, 2, 2),
        painting_kind_bounds(PaintingKind::Endboss) == uvec3(3, 3, 3),
        painting_kind_bounds(PaintingKind::Fern) == uvec3(3, 3, 3),
        painting_kind_bounds(PaintingKind::Fighters) == uvec3(4, 2, 4),
        painting_kind_bounds(PaintingKind::Finding) == uvec3(4, 2, 4),
        painting_kind_bounds(PaintingKind::Fire) == uvec3(2, 2, 2),
        painting_kind_bounds(PaintingKind::Graham) == uvec3(1, 2, 1),
        painting_kind_bounds(PaintingKind::Humble) == uvec3(2, 2, 2),
        painting_kind_bounds(PaintingKind::Kebab) == uvec3(1, 1, 1),
        painting_kind_bounds(PaintingKind::Lowmist) == uvec3(4, 2, 4),
        painting_kind_bounds(PaintingKind::Match) == uvec3(2, 2, 2),
        painting_kind_bounds(PaintingKind::Meditative) == uvec3(1, 1, 1),
        painting_kind_bounds(PaintingKind::Orb) == uvec3(4, 4, 4),
        painting_kind_bounds(PaintingKind::Owlemons) == uvec3(3, 3, 3),
        painting_kind_bounds(PaintingKind::Passage) == uvec3(4, 2, 4),
        painting_kind_bounds(PaintingKind::Pigscene) == uvec3(4, 4, 4),
        painting_kind_bounds(PaintingKind::Plant) == uvec3(1, 1, 1),
        painting_kind_bounds(PaintingKind::Pointer) == uvec3(4, 4, 4),
        painting_kind_bounds(PaintingKind::Pond) == uvec3(3, 4, 3),
        painting_kind_bounds(PaintingKind::Pool) == uvec3(2, 1, 2),
        painting_kind_bounds(PaintingKind::PrairieRide) == uvec3(1, 2, 1),
        painting_kind_bounds(PaintingKind::Sea) == uvec3(2, 1, 2),
        painting_kind_bounds(PaintingKind::Skeleton) == uvec3(4, 3, 4),
        painting_kind_bounds(PaintingKind::SkullAndRoses) == uvec3(2, 2, 2),
        painting_kind_bounds(PaintingKind::Stage) == uvec3(2, 2, 2),
        painting_kind_bounds(PaintingKind::Sunflowers) == uvec3(3, 3, 3),
        painting_kind_bounds(PaintingKind::Sunset) == uvec3(2, 1, 2),
        painting_kind_bounds(PaintingKind::Tides) == uvec3(3, 3, 3),
        painting_kind_bounds(PaintingKind::Unpacked) == uvec3(4, 4, 4),
        painting_kind_bounds(PaintingKind::Void) == uvec3(2, 2, 2),
        painting_kind_bounds(PaintingKind::Wanderer) == uvec3(1, 2, 1),
        painting_kind_bounds(PaintingKind::Wasteland) == uvec3(1, 1, 1),
        painting_kind_bounds(PaintingKind::Water) == uvec3(2, 2, 2),
        painting_kind_bounds(PaintingKind::Wind) == uvec3(2, 2, 2),
        painting_kind_bounds(PaintingKind::Wither) == uvec3(2, 2, 2),
{
}

/// A player's size in each pose: a small cube while sleeping or dying, a
/// 0.6-block cube while flying with elytra, swimming or spin-attacking,
/// 1.5 blocks tall while sneaking and 1.8 blocks tall otherwise.
pub proof fn law_player_sizes()
    ensures
        player_size(Pose::Standing) == vec3(600_000, 1_800_000, 600_000),
        player_size(Pose::FallFlying) == vec3(600_000, 600_000, 600_000),
        player_size(Pose::Sleeping) == vec3(200_000, 200_000, 200_000),
        player_size(Pose::Swimming) == vec3(600_000, 600_000, 600_000),
        player_size(Pose::SpinAttack) == vec3(600_000, 600_000, 600_000),
        player_size(Pose::Sneaking) == vec3(600_000, 1_500_000, 600_000),
        player_size(Pose::LongJumping) == vec3(600_000, 1_800_000, 600_000),
        player_size(Pose::Dying) == vec3(200_000, 200_000, 200_000),
        player_size(Pose::Croaking) == vec3(600_000, 1_800_000, 600_000),
        player_size(Pose::UsingTongue) == vec3(600_000, 1_800_000, 600_000),
        player_size(Pose::Sitting) == vec3(600_000, 1_800_000, 600_000),
        player_size(Pose::Roaring) == vec3(600_000, 1_800_000, 600_000),
        player_size(Pose::Sniffing) == vec3(600_000, 1_800_000, 600_000),
        player_size(Pose::Emerging) == vec3(600_000, 1_800_000, 600_000),
        player_size(Pose::Digging) == vec3(600_000, 1_800_000, 600_000),
        player_size(Pose::Sliding) == vec3(600_000, 1_800_000, 600_000),
        player_size(Pose::Shooting) == vec3(600_000, 1_800_000, 600_000),
        player_size(Pose::Inhaling) == vec3(600_000, 1_800_000, 600_000),
{
}

/// A warden's size in each pose: one block tall while it emerges or digs,
/// 2.9 blocks otherwise.
pub proof fn law_warden_sizes()
    ensures
        warden_size(Pose::Standing) == vec3(900_000, 2_900_000, 900_000),
        warden_size(Pose::FallFlying) == vec3(900_000, 2_900_000, 900_000),
        warden_size(Pose::Sleeping) == vec3(900_000, 2_900_000, 900_000),
        warden_size(Pose::Swimming) == vec3(900_000, 2_900_000, 900_000),
        warden_size(Pose::SpinAttack) == vec3(900_000, 2_900_000, 900_000),
        warden_size(Pose::Sneaking) == vec3(900_000, 2_900_000, 900_000),
        warden_size(Pose::LongJumping) == vec3(900_000, 2_900_000, 900_000),
        warden_size(Pose::Dying) == vec3(900_000, 2_900_000, 900_000),
        warden_size(Pose::Croaking) == vec3(900_000, 2_900_000, 900_000),
        warden_size(Pose::UsingTongue) == vec3(900_000, 2_900_000, 900_000),
        warden_size(Pose::Sitting) == vec3(900_000, 2_900_000, 900_000),
        warden_size(Pose::Roaring) == vec3(900_000, 2_900_000, 900_000),
        warden_size(Pose::Sniffing) == vec3(900_000, 2_900_000, 900_000),
        warden_size(Pose::Emerging) == vec3(900_000, 1_000_000, 900_000),
        warden_size(Pose::Digging) == vec3(900_000, 1_000_000, 900_000),
        warden_size(Pose::Sliding) == vec3(900_000, 2_900_000, 900_000),
        warden_size(Pose::Shooting) == vec3(900_000, 2_900_000, 900_000),
        warden_size(Pose::Inhaling) == vec3(900_000, 2_900_000, 900_000),
{
}

/// An armor stand with the marker bit has no size; otherwise one with the
/// small bit is 0.5 x 0.9875 x 0.5 blocks, and any other 0.5 x 1.975 x 0.5.
pub proof fn law_armor_stand_sizes(flags: i8)
    ensures
        flags & 16 != 0 ==> armor_stand_size(flags) == vec3(0, 0, 0),
        flags & 16 == 0 && flags & 1 != 0 ==> armor_stand_size(flags) == vec3(500_000, 987_500, 500_000),
        flags & 16 == 0 && flags & 1 == 0 ==> armor_stand_size(flags) == vec3(500_000, 1_975_000, 500_000),
{
}

/// Adult zombies and piglins are 0.6 x 1.95 x 0.6 blocks, adult zoglins
/// 1.39648 x 1.4 x 1.39648, and a slime's edge is 0.5202 blocks per unit
/// of its size.
pub proof fn law_fixed_adult_sizes(size: i32)
    ensures
        zombie_adult_size() == vec3(600_000, 1_950_000, 600_000),
        piglin_adult_size() == vec3(600_000, 1_950_000, 600_000),
        zoglin_adult_size() == vec3(1_396_480, 1_400_000, 1_396_480),
        slime_size(size) == vec3(520_200 * size, 520_200 * size, 520_200 * size),
{
}

/// An item frame hangs on the face of its block that its rotation names: its
/// box is 1/16 block thick against that face and 3/4 block square, centered
/// on the face. The rotation names the face by the direction of its axis:
/// 0 +y, 1 -y, 2 +z, 3 -z, 4 +x, 5 -x; any other rotation counts as 1.
pub proof fn law_item_frame_placement(rotation: i32)
    ensures
        rotation == 0 ==> item_frame_box(rotation) == (Aabb {
            min: vec3(468_750, 593_750, 125_000),
            max: vec3(531_250, 1_343_750, 875_000),
        }),
        rotation == 2 ==> item_frame_box(rotation) == (Aabb {
            min: vec3(125_000, 125_000, 937_500),
            max: vec3(875_000, 875_000, 1_000_000),
        }),
        rotation == 3 ==> item_frame_box(rotation) == (Aabb {
            min: vec3(125_000, 125_000, 0),
            max: vec3(875_000, 875_000, 62_500),
        }),
        rotation == 4 ==> item_frame_box(rotation) == (Aabb {
            min: vec3(937_500, 125_000, 125_000),
            max: vec3(1_000_000, 875_000, 875_000),
        }),
        rotation == 5 ==> item_frame_box(rotation) == (Aabb {
            min: vec3(0, 125_000, 125_000),
            max: vec3(62_500, 875_000, 875_000),
        }),
        !(rotation == 0 || rotation == 2 || rotation == 3 || rotation == 4 || rotation == 5)
            ==> item_frame_box(rotation) == (Aabb {
            min: vec3(468_750, -343_750, 125_000),
            max: vec3(531_250, 406_250, 875_000),
        }),
{
}

/// A painting lies flat against one face of its block, 1/16 block thick:
/// the south face (low z) for quadrant 0, the west face (high x) for 1, the
/// north face (high z) for 2 and the east face (low x) otherwise. Along the
/// wall and upward, it covers its size in blocks, centered on the block's
/// center where that size is odd and on the block's edge half a block
/// further (counter-clockwise from its facing, and upward) where it is even.
pub proof fn law_painting_placement(bounds: UVec3, quadrant: u8)
    ensures
        ({
            let b = painting_box(bounds, quadrant);
            let w = bounds.x * UNITS_PER_BLOCK;
            let h = bounds.y * UNITS_PER_BLOCK;
            let d = bounds.z * UNITS_PER_BLOCK;
            let up = if bounds.y % 2 == 0 { 2_000_000int } else { 1_000_000int };
            let along_x = if bounds.x % 2 == 0 { 1_000_000int } else { 0int };
            let along_z = if bounds.z % 2 == 0 { 1_000_000int } else { 0int };
            &&& b.max.y - b.min.y == h
            &&& b.min.y + b.max.y == up
            &&& quadrant == 0 ==> b.min.z == 0 && b.max.z == 62_500 && b.max.x - b.min.x == w
                && b.min.x + b.max.x == 1_000_000 + along_x
            &&& quadrant == 1 ==> b.min.x == 937_500 && b.max.x == 1_000_000 && b.max.z - b.min.z
                == d && b.min.z + b.max.z == 1_000_000 + along_z
            &&& quadrant == 2 ==> b.min.z == 937_500 && b.max.z == 1_000_000 && b.max.x - b.min.x
                == w && b.min.x + b.max.x == 1_000_000 - along_x
            &&& quadrant >= 3 ==> b.min.x == 0 && b.max.x == 62_500 && b.max.z - b.min.z == d
                && b.min.z + b.max.z == 1_000_000 - along_z
        }),
{
}

/// As a shulker opens, its box grows away from the face it is attached by:
/// up when attached below, down when attached above, and likewise along z
/// (high for north, low for south) and x (high for west, low for east).
pub proof fn law_shulker_lid_faces()
    ensures
        shulker_lid_face(Direction::Down) == (BoxFace { axis: Axis::Y, high: true }),
        shulker_lid_face(Direction::Up) == (BoxFace { axis: Axis::Y, high: false }),
        shulker_lid_face(Direction::North) == (BoxFace { axis: Axis::Z, high: true }),
        shulker_lid_face(Direction::South) == (BoxFace { axis: Axis::Z, high: false }),
        shulker_lid_face(Direction::West) == (BoxFace { axis: Axis::X, high: true }),
        shulker_lid_face(Direction::East) == (BoxFace { axis: Axis::X, high: false }),
{
}

} // verus!
