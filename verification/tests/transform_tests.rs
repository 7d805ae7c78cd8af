//! Tests for the transform registry: hierarchy composition, resolution,
//! mutation, and freshness of parent updates.

use game_engine_lib::math::{BasicTransform, Quat, Vec3};
use game_engine_lib::transform::TransformRegistry;

fn v3(x: f32, y: f32, z: f32) -> Vec3 {
    Vec3::new(x.to_bits(), y.to_bits(), z.to_bits())
}

fn quat(g: glam::Quat) -> Quat {
    let a = g.to_array();
    Quat::new(a[0].to_bits(), a[1].to_bits(), a[2].to_bits(), a[3].to_bits())
}

fn to_glam_v3(v: Vec3) -> glam::Vec3 {
    glam::Vec3::new(f32::from_bits(v.x), f32::from_bits(v.y), f32::from_bits(v.z))
}

#[test]
fn test_registry() {
    let mut registry = TransformRegistry::new();

    let t1 = registry.transform(
        v3(1.0, 1.0, 1.0),
        quat(glam::Quat::from_euler(glam::EulerRot::XYZ, 0.0, 0.0, 0.0)),
        v3(1.0, 1.0, 1.0),
        None,
    );
    let t2 = registry.transform(
        v3(1.0, 1.0, 1.0),
        quat(glam::Quat::from_euler(glam::EulerRot::XYZ, 0.0, 0.0, 0.0)),
        v3(1.0, 1.0, 1.0),
        Some(t1.id()),
    );

    assert_eq!(
        t1.local(&registry).unwrap().add(t2.local(&registry).unwrap()),
        t2.global(&registry).unwrap()
    );

    t1.set(
        &mut registry,
        BasicTransform::new(
            v3(2.0, 2.0, 2.0),
            quat(glam::Quat::from_euler(glam::EulerRot::XYZ, 1.0, 1.0, 1.0)),
            v3(1.0, 1.0, 1.0),
        ),
    );

    assert_eq!(
        t1.local(&registry).unwrap().add(t2.local(&registry).unwrap()),
        t2.global(&registry).unwrap()
    );
}

#[test]
fn test_set() {
    let mut registry = TransformRegistry::new();

    let t1 = registry.transform(
        v3(1.0, 1.0, 1.0),
        quat(glam::Quat::from_euler(glam::EulerRot::XYZ, 0.0, 0.0, 0.0)),
        v3(1.0, 1.0, 1.0),
        None,
    );

    let new_transform = BasicTransform {
        translation: v3(10.0, 10.0, 10.0),
        rotation: quat(glam::Quat::from_euler(glam::EulerRot::XYZ, 0.0, 0.0, 0.0)),
        scale: v3(1.0, 1.0, 1.0),
    };

    t1.set(&mut registry, new_transform).unwrap();

    assert_eq!(t1.local(&registry).unwrap(), new_transform);
}

#[test]
fn root_global_equals_local() {
    let mut registry = TransformRegistry::new();
    let local = BasicTransform {
        translation: v3(3.0, -2.0, 7.5),
        rotation: quat(glam::Quat::from_rotation_y(0.7)),
        scale: v3(2.0, 2.0, 2.0),
    };
    let t = registry.transform(local.translation, local.rotation, local.scale, None);
    let node = registry.get(t.id()).unwrap();
    assert_eq!(node.local(), local);
    assert_eq!(node.global(), local);
}

#[test]
fn chain_composes_at_depth_three() {
    let mut registry = TransformRegistry::new();
    let root = registry.transform(
        v3(1.0, 0.0, 0.0),
        quat(glam::Quat::from_rotation_z(0.5)),
        v3(1.0, 1.0, 1.0),
        None,
    );
    let mid = registry.transform(
        v3(0.0, 2.0, 0.0),
        quat(glam::Quat::from_rotation_x(-0.25)),
        v3(0.5, 0.5, 0.5),
        Some(root.id()),
    );
    let leaf = registry.transform(
        v3(0.0, 0.0, 3.0),
        quat(glam::Quat::from_rotation_y(1.1)),
        v3(0.25, 0.25, 0.25),
        Some(mid.id()),
    );

    let g_root = root.global(&registry).unwrap();
    let g_mid = mid.global(&registry).unwrap();
    let g_leaf = leaf.global(&registry).unwrap();

    assert_eq!(g_mid, g_root.add(mid.local(&registry).unwrap()));
    assert_eq!(g_leaf, g_mid.add(leaf.local(&registry).unwrap()));
}

#[test]
fn composition_rule_matches_documented_formula() {
    let parent = BasicTransform {
        translation: v3(1.0, 2.0, 3.0),
        rotation: quat(glam::Quat::from_rotation_y(std::f32::consts::FRAC_PI_2)),
        scale: v3(1.0, 1.0, 1.0),
    };
    let local = BasicTransform {
        translation: v3(4.0, 5.0, 6.0),
        rotation: quat(glam::Quat::from_rotation_x(0.3)),
        scale: v3(0.5, 0.25, 0.125),
    };

    let composed = parent.add(local);

    let gp_rot = glam::Quat::from_rotation_y(std::f32::consts::FRAC_PI_2);
    let expected_translation =
        gp_rot * glam::Vec3::new(4.0, 5.0, 6.0) + glam::Vec3::new(1.0, 2.0, 3.0);
    let expected_rotation = gp_rot * glam::Quat::from_rotation_x(0.3);
    let expected_scale = glam::Vec3::new(1.5, 1.25, 1.125);

    assert_eq!(to_glam_v3(composed.translation), expected_translation);
    assert_eq!(to_glam_v3(composed.scale), expected_scale);
    let got_rot = composed.rotation;
    let exp = expected_rotation.to_array();
    assert_eq!(
        [got_rot.x, got_rot.y, got_rot.z, got_rot.w],
        [exp[0].to_bits(), exp[1].to_bits(), exp[2].to_bits(), exp[3].to_bits()]
    );
}

#[test]
fn get_is_idempotent_without_set() {
    let mut registry = TransformRegistry::new();
    let root = registry.transform(
        v3(1.0, 2.0, 3.0),
        quat(glam::Quat::from_rotation_z(0.4)),
        v3(1.0, 1.0, 1.0),
        None,
    );
    let child = registry.transform(
        v3(-1.0, 0.5, 0.0),
        quat(glam::Quat::from_rotation_x(0.2)),
        v3(1.0, 1.0, 1.0),
        Some(root.id()),
    );

    let first = registry.get(child.id()).unwrap();
    let second = registry.get(child.id()).unwrap();
    assert_eq!(first, second);
}

#[test]
fn parent_update_visible_through_child_without_re_resolution() {
    let mut registry = TransformRegistry::new();
    let parent = registry.transform(
        v3(0.0, 0.0, 0.0),
        quat(glam::Quat::IDENTITY),
        v3(1.0, 1.0, 1.0),
        None,
    );
    let child = registry.transform(
        v3(1.0, 0.0, 0.0),
        quat(glam::Quat::IDENTITY),
        v3(1.0, 1.0, 1.0),
        Some(parent.id()),
    );

    let before = child.global(&registry).unwrap();
    assert_eq!(to_glam_v3(before.translation), glam::Vec3::new(1.0, 0.0, 0.0));

    let moved = BasicTransform {
        translation: v3(0.0, 5.0, 0.0),
        rotation: quat(glam::Quat::IDENTITY),
        scale: v3(1.0, 1.0, 1.0),
    };
    parent.set(&mut registry, moved).unwrap();

    let after = child.global(&registry).unwrap();
    assert_eq!(to_glam_v3(after.translation), glam::Vec3::new(1.0, 5.0, 0.0));
}

#[test]
fn unknown_ids_are_lookup_misses() {
    let mut registry = TransformRegistry::new();
    let known = registry.transform(
        v3(0.0, 0.0, 0.0),
        quat(glam::Quat::IDENTITY),
        v3(1.0, 1.0, 1.0),
        None,
    );

    let mut other = TransformRegistry::new();
    let foreign = other.transform(
        v3(0.0, 0.0, 0.0),
        quat(glam::Quat::IDENTITY),
        v3(1.0, 1.0, 1.0),
        None,
    );
    let _ = foreign;

    assert!(registry.get(known.id()).is_some());
    let missing = game_engine_lib::transform::TransformId(999);
    assert!(registry.get(missing).is_none());
    assert!(registry.set(missing, BasicTransform {
        translation: v3(1.0, 1.0, 1.0),
        rotation: quat(glam::Quat::IDENTITY),
        scale: v3(1.0, 1.0, 1.0),
    }).is_none());

    // A parent id this registry never issued is a lookup miss at
    // creation: the link is skipped and the node resolves as a root.
    let orphan = registry.transform(
        v3(4.0, 4.0, 4.0),
        quat(glam::Quat::IDENTITY),
        v3(1.0, 1.0, 1.0),
        Some(missing),
    );
    let node = registry.get(orphan.id()).unwrap();
    assert_eq!(node.parent(), None);
    assert_eq!(node.global(), node.local());
}

#[test]
fn with_mut_applies_and_writes_back() {
    let mut registry = TransformRegistry::new();
    let t = registry.transform(
        v3(1.0, 1.0, 1.0),
        quat(glam::Quat::IDENTITY),
        v3(1.0, 1.0, 1.0),
        None,
    );

    let updated = t
        .with_mut(&mut registry, |mut local| {
            local.translation = Vec3::new(9.0f32.to_bits(), local.translation.y, local.translation.z);
            local
        })
        .unwrap();

    assert_eq!(f32::from_bits(updated.translation.x), 9.0);
    assert_eq!(t.local(&registry).unwrap(), updated);
}
