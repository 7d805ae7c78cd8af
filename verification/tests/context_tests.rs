//! Tests for the context registry and math wrappers.

use game_engine_lib::context::{Context, ContextItem, ContextKind};
use game_engine_lib::math::{quat_mul, quat_rotate, vec3_add, Quat, Vec3};
use game_engine_lib::systems::SystemRegistry;
use game_engine_lib::transform::TransformRegistry;

fn v3(x: f32, y: f32, z: f32) -> Vec3 {
    Vec3::new(x.to_bits(), y.to_bits(), z.to_bits())
}

#[test]
fn context_stores_and_returns_items_by_kind() {
    let mut context = Context::new();
    assert!(context.get(ContextKind::Transforms).is_none());

    context.add(ContextItem::Transforms(TransformRegistry::new()));
    context.add(ContextItem::Systems(SystemRegistry::new()));

    let transforms = context.get(ContextKind::Transforms).unwrap();
    assert_eq!(transforms.label(), "TransformRegistry");
    assert!(matches!(transforms, ContextItem::Transforms(_)));

    let systems = context.get(ContextKind::Systems).unwrap();
    assert_eq!(systems.label(), "SystemRegistry");
    assert!(matches!(systems, ContextItem::Systems(_)));
}

#[test]
fn vector_addition_is_componentwise() {
    let s = vec3_add(v3(1.0, 2.0, 3.0), v3(4.0, 5.0, 6.0));
    assert_eq!(s, v3(5.0, 7.0, 9.0));
}

#[test]
fn quaternion_rotation_matches_the_real_computation() {
    let g = glam::Quat::from_rotation_y(std::f32::consts::FRAC_PI_2);
    let a = g.to_array();
    let q = Quat::new(a[0].to_bits(), a[1].to_bits(), a[2].to_bits(), a[3].to_bits());

    let rotated = quat_rotate(q, v3(1.0, 0.0, 0.0));
    let expected = g * glam::Vec3::new(1.0, 0.0, 0.0);
    assert_eq!(
        [
            f32::from_bits(rotated.x),
            f32::from_bits(rotated.y),
            f32::from_bits(rotated.z),
        ],
        [expected.x, expected.y, expected.z]
    );
}

#[test]
fn quaternion_product_matches_the_real_computation() {
    let ga = glam::Quat::from_rotation_x(0.4);
    let gb = glam::Quat::from_rotation_z(-1.2);
    let aa = ga.to_array();
    let ba = gb.to_array();
    let qa = Quat::new(aa[0].to_bits(), aa[1].to_bits(), aa[2].to_bits(), aa[3].to_bits());
    let qb = Quat::new(ba[0].to_bits(), ba[1].to_bits(), ba[2].to_bits(), ba[3].to_bits());

    let product = quat_mul(qa, qb);
    let expected = ga.mul_quat(gb).to_array();
    assert_eq!(
        [product.x, product.y, product.z, product.w],
        [
            expected[0].to_bits(),
            expected[1].to_bits(),
            expected[2].to_bits(),
            expected[3].to_bits(),
        ]
    );
}
