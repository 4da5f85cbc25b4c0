use valence_logic::entity::Pose;
use valence_logic::hitbox::{
    adult_hitbox_size, child_hitbox, constant_hitbox_size, inline_painting_hitbox_bounds,
    painting_hitbox_bounds, painting_kind_hitbox_bounds, shulker_peek_face, update_armor_stand_hitbox,
    update_constant_hitbox, update_item_frame_hitbox, update_painting_hitbox, update_passive_child_hitbox,
    update_piglin_hitbox, update_player_hitbox, update_slime_hitbox, update_warden_hitbox,
    update_zoglin_hitbox, update_zombie_hitbox, Aabb, Axis, BoxFace, Direction, EntityHitboxSettings,
    EntityKind, HitboxShape, PaintingKind, PaintingVariant, UVec3, Vec3,
};

fn v(x: i64, y: i64, z: i64) -> Vec3 {
    Vec3 { x, y, z }
}

fn bx(min: (i64, i64, i64), max: (i64, i64, i64)) -> Aabb {
    Aabb { min: v(min.0, min.1, min.2), max: v(max.0, max.1, max.2) }
}

fn centered(x: i64, y: i64, z: i64) -> HitboxShape {
    HitboxShape(bx((-x / 2, 0, -z / 2), (x / 2, y, z / 2)))
}

#[test]
fn settings_default_adds_hitboxes() {
    assert!(EntityHitboxSettings::default().add_hitbox_component);
}

#[test]
fn zero_shape_and_centering() {
    let mut s = HitboxShape::zero();
    assert_eq!(s.get(), bx((0, 0, 0), (0, 0, 0)));
    s.centered(v(600_000, 1_800_000, 600_000));
    assert_eq!(s.get(), bx((-300_000, 0, -300_000), (300_000, 1_800_000, 300_000)));
    assert_eq!(Aabb::new(v(-1, 2, -2), v(1, 5, 3)), bx((-1, 2, -2), (1, 5, 3)));
    assert_eq!(Aabb::from_bottom_size(v(10, 20, 30), v(4, 6, 8)), bx((8, 20, 26), (12, 26, 34)));
}

#[test]
fn constant_sizes() {
    assert_eq!(constant_hitbox_size(EntityKind::Allay), Some(v(600_000, 350_000, 600_000)));
    assert_eq!(constant_hitbox_size(EntityKind::Boat), Some(v(1_375_000, 562_500, 1_375_000)));
    assert_eq!(constant_hitbox_size(EntityKind::ChestBoat), Some(v(1_375_000, 562_500, 1_375_000)));
    assert_eq!(constant_hitbox_size(EntityKind::EnderDragon), Some(v(16_000_000, 8_000_000, 16_000_000)));
    assert_eq!(constant_hitbox_size(EntityKind::ElderGuardian), Some(v(1_997_500, 1_997_500, 1_997_500)));
    assert_eq!(constant_hitbox_size(EntityKind::LightningBolt), Some(v(0, 0, 0)));
    assert_eq!(constant_hitbox_size(EntityKind::MinecartTnt), Some(v(980_000, 700_000, 980_000)));
    assert_eq!(constant_hitbox_size(EntityKind::Pig), None);
    assert_eq!(constant_hitbox_size(EntityKind::Other), None);
    let mut s = centered(2, 2, 2);
    update_constant_hitbox(&mut s, EntityKind::Other);
    assert_eq!(s, centered(2, 2, 2));
    update_constant_hitbox(&mut s, EntityKind::Giant);
    assert_eq!(s, centered(3_600_000, 12_000_000, 3_600_000));
}

#[test]
fn warden_and_player_poses() {
    let mut s = HitboxShape::zero();
    update_warden_hitbox(&mut s, Pose::Digging);
    assert_eq!(s, centered(900_000, 1_000_000, 900_000));
    update_warden_hitbox(&mut s, Pose::Roaring);
    assert_eq!(s, centered(900_000, 2_900_000, 900_000));
    update_player_hitbox(&mut s, Pose::Sneaking);
    assert_eq!(s, centered(600_000, 1_500_000, 600_000));
    update_player_hitbox(&mut s, Pose::Standing);
    assert_eq!(s, centered(600_000, 1_800_000, 600_000));
    update_player_hitbox(&mut s, Pose::Swimming);
    assert_eq!(s, centered(600_000, 600_000, 600_000));
    update_player_hitbox(&mut s, Pose::Dying);
    assert_eq!(s, centered(200_000, 200_000, 200_000));
}

#[test]
fn armor_stand_flags() {
    let mut s = HitboxShape::zero();
    update_armor_stand_hitbox(&mut s, 0);
    assert_eq!(s, centered(500_000, 1_975_000, 500_000));
    update_armor_stand_hitbox(&mut s, 1);
    assert_eq!(s, centered(500_000, 987_500, 500_000));
    update_armor_stand_hitbox(&mut s, 17);
    assert_eq!(s, centered(0, 0, 0));
}

#[test]
fn children_are_half_size() {
    assert_eq!(child_hitbox(true, v(1_396_480, 1_600_000, 1_396_480)), v(698_240, 800_000, 698_240));
    assert_eq!(child_hitbox(false, v(3, 5, 7)), v(3, 5, 7));
    let mut s = HitboxShape::zero();
    update_passive_child_hitbox(&mut s, EntityKind::Horse, true, None);
    assert_eq!(s, centered(698_240, 800_000, 698_240));
    update_passive_child_hitbox(&mut s, EntityKind::Goat, false, Some(Pose::LongJumping));
    assert_eq!(s, centered(630_000, 910_000, 630_000));
    update_passive_child_hitbox(&mut s, EntityKind::Goat, true, Some(Pose::Standing));
    assert_eq!(s, centered(450_000, 650_000, 450_000));
    update_passive_child_hitbox(&mut s, EntityKind::Turtle, true, None);
    assert_eq!(s, centered(360_000, 120_000, 360_000));
    update_passive_child_hitbox(&mut s, EntityKind::Turtle, false, None);
    assert_eq!(s, centered(1_200_000, 400_000, 1_200_000));
    update_passive_child_hitbox(&mut s, EntityKind::Creeper, true, None);
    assert_eq!(s, centered(1_200_000, 400_000, 1_200_000));
    assert_eq!(adult_hitbox_size(EntityKind::Camel, None), Some(v(1_700_000, 2_375_000, 1_700_000)));
    update_zombie_hitbox(&mut s, true);
    assert_eq!(s, centered(300_000, 975_000, 300_000));
    update_piglin_hitbox(&mut s, false);
    assert_eq!(s, centered(600_000, 1_950_000, 600_000));
    update_zoglin_hitbox(&mut s, true);
    assert_eq!(s, centered(698_240, 700_000, 698_240));
}

#[test]
fn slime_grows_with_size() {
    let mut s = HitboxShape::zero();
    update_slime_hitbox(&mut s, 4);
    assert_eq!(s, centered(2_080_800, 2_080_800, 2_080_800));
    update_slime_hitbox(&mut s, 1);
    assert_eq!(s, centered(520_200, 520_200, 520_200));
}

#[test]
fn item_frames() {
    let mut s = HitboxShape::zero();
    update_item_frame_hitbox(&mut s, 0);
    assert_eq!(s.0, bx((468_750, 593_750, 125_000), (531_250, 1_343_750, 875_000)));
    update_item_frame_hitbox(&mut s, 2);
    assert_eq!(s.0, bx((125_000, 125_000, 937_500), (875_000, 875_000, 1_000_000)));
    update_item_frame_hitbox(&mut s, 5);
    assert_eq!(s.0, bx((0, 125_000, 125_000), (62_500, 875_000, 875_000)));
    update_item_frame_hitbox(&mut s, 9);
    assert_eq!(s.0, bx((468_750, -343_750, 125_000), (531_250, 406_250, 875_000)));
}

#[test]
fn painting_sizes() {
    assert_eq!(painting_kind_hitbox_bounds(PaintingKind::Kebab), UVec3 { x: 1, y: 1, z: 1 });
    assert_eq!(painting_kind_hitbox_bounds(PaintingKind::Wanderer), UVec3 { x: 1, y: 2, z: 1 });
    assert_eq!(painting_kind_hitbox_bounds(PaintingKind::Skeleton), UVec3 { x: 4, y: 3, z: 4 });
    assert_eq!(painting_kind_hitbox_bounds(PaintingKind::Backyard), UVec3 { x: 3, y: 4, z: 3 });
    assert_eq!(inline_painting_hitbox_bounds(2, 0), UVec3 { x: 2, y: 1, z: 2 });
    assert_eq!(inline_painting_hitbox_bounds(-5, 3), UVec3 { x: 1, y: 3, z: 1 });
    assert_eq!(painting_hitbox_bounds(&PaintingVariant::Registered(None)), UVec3 { x: 1, y: 1, z: 1 });
    assert_eq!(
        painting_hitbox_bounds(&PaintingVariant::Inline { width: 4, height: 2 }),
        UVec3 { x: 4, y: 2, z: 4 }
    );
}

#[test]
fn painting_boxes() {
    let mut s = HitboxShape::zero();
    update_painting_hitbox(&mut s, &PaintingVariant::Registered(Some(PaintingKind::Kebab)), 0);
    assert_eq!(s.0, bx((0, 0, 0), (1_000_000, 1_000_000, 62_500)));
    update_painting_hitbox(&mut s, &PaintingVariant::Registered(Some(PaintingKind::Skeleton)), 1);
    assert_eq!(s.0, bx((937_500, -1_000_000, -1_000_000), (1_000_000, 2_000_000, 3_000_000)));
    update_painting_hitbox(&mut s, &PaintingVariant::Registered(Some(PaintingKind::Pool)), 2);
    assert_eq!(s.0, bx((-1_000_000, 0, 937_500), (1_000_000, 1_000_000, 1_000_000)));
    update_painting_hitbox(&mut s, &PaintingVariant::Registered(Some(PaintingKind::Kebab)), 4);
    assert_eq!(s.0, bx((0, 0, 0), (62_500, 1_000_000, 1_000_000)));
}

#[test]
fn shulker_faces() {
    assert_eq!(shulker_peek_face(Direction::Down), BoxFace { axis: Axis::Y, high: true });
    assert_eq!(shulker_peek_face(Direction::Up), BoxFace { axis: Axis::Y, high: false });
    assert_eq!(shulker_peek_face(Direction::North), BoxFace { axis: Axis::Z, high: true });
    assert_eq!(shulker_peek_face(Direction::South), BoxFace { axis: Axis::Z, high: false });
    assert_eq!(shulker_peek_face(Direction::West), BoxFace { axis: Axis::X, high: true });
    assert_eq!(shulker_peek_face(Direction::East), BoxFace { axis: Axis::X, high: false });
}
