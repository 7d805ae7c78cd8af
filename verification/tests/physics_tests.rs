//! Tests for the physics bridge, run against the real rigid-body
//! simulation: seeding, the body lifecycle, gravity, forces, and the
//! command error taxonomy.

use game_engine_lib::component::{Component, ComponentKind, ComponentSet};
use game_engine_lib::engine::Engine;
use game_engine_lib::entity::{new_object, EntityRegistry};
use game_engine_lib::math::{BasicTransform, Quat, Vec3};
use game_engine_lib::physics::{
    BodyDesc, BodyHandle, BodyKind, ColliderDesc, PhysicsBody, PhysicsCommand, PhysicsEngine,
    PhysicsError, RigidBodyState, ShapeDesc,
};
use game_engine_lib::rendering::RendererType;
use game_engine_lib::transform::TransformRegistry;

fn v3(x: f32, y: f32, z: f32) -> Vec3 {
    Vec3::new(x.to_bits(), y.to_bits(), z.to_bits())
}

fn at(x: f32, y: f32, z: f32) -> BasicTransform {
    BasicTransform {
        translation: v3(x, y, z),
        rotation: Quat::new(0.0f32.to_bits(), 0.0f32.to_bits(), 0.0f32.to_bits(), 1.0f32.to_bits()),
        scale: v3(1.0, 1.0, 1.0),
    }
}

fn dynamic_ball() -> ComponentSet {
    let mut components = ComponentSet::new();
    components.add(Component::PhysicsBody(PhysicsBody::new(
        ColliderDesc { shape: ShapeDesc::Ball { radius: 1.0f32.to_bits() } },
        BodyDesc { kind: BodyKind::Dynamic },
    )));
    components
}

fn body_state(entities: &EntityRegistry, id: u64) -> RigidBodyState {
    match entities.get(id).unwrap().components().get(ComponentKind::PhysicsBody) {
        Some(Component::PhysicsBody(pb)) => pb.rigid_body,
        _ => panic!("no physics body"),
    }
}

fn y_position(engine: &Engine, id: u64) -> f32 {
    let e = engine.objects.get(id).unwrap();
    let tid = match e.components().get(ComponentKind::Transform) {
        Some(Component::Transform(t)) => t.id(),
        _ => panic!("no transform"),
    };
    f32::from_bits(engine.transforms.get(tid).unwrap().global().translation.y)
}

fn delta_16ms() -> u32 {
    0.016f32.to_bits()
}

#[test]
fn pending_body_becomes_active_at_construction_and_falls() {
    let mut transforms = TransformRegistry::new();
    let mut entities = EntityRegistry::new();
    let obj = new_object(at(0.0, 10.0, 0.0), None, dynamic_ball(), &mut transforms);
    let id = obj.id();
    entities.add(obj);

    assert!(matches!(body_state(&entities, id), RigidBodyState::Pending(_)));

    let mut engine = Engine::new(RendererType::ThreeD, entities, transforms, 0);
    assert!(matches!(body_state(&engine.objects, id), RigidBodyState::Active(_)));

    let y0 = y_position(&engine, id);
    assert_eq!(y0, 10.0);

    let errors = engine.step_physics(delta_16ms());
    assert!(errors.is_empty());
    let y1 = y_position(&engine, id);

    let errors = engine.step_physics(delta_16ms());
    assert!(errors.is_empty());
    let y2 = y_position(&engine, id);

    assert!(y1 < y0, "first step should fall: {y1} < {y0}");
    assert!(y2 < y1, "second step should fall further: {y2} < {y1}");
}

#[test]
fn applied_force_changes_the_trajectory() {
    // Two identical worlds; one body gets a force before stepping.
    let mut t1 = TransformRegistry::new();
    let mut e1 = EntityRegistry::new();
    let a = new_object(at(0.0, 10.0, 0.0), None, dynamic_ball(), &mut t1);
    let a_id = a.id();
    e1.add(a);
    let mut forced = Engine::new(RendererType::ThreeD, e1, t1, 0);

    let mut t2 = TransformRegistry::new();
    let mut e2 = EntityRegistry::new();
    let b = new_object(at(0.0, 10.0, 0.0), None, dynamic_ball(), &mut t2);
    let b_id = b.id();
    e2.add(b);
    let mut free = Engine::new(RendererType::ThreeD, e2, t2, 0);

    forced
        .physics_engine
        .handle_command(
            &forced.objects,
            PhysicsCommand::ApplyForce { id: a_id, force: v3(500.0, 0.0, 0.0) },
        )
        .unwrap();

    forced.step_physics(delta_16ms());
    free.step_physics(delta_16ms());

    let forced_x = {
        let e = forced.objects.get(a_id).unwrap();
        let tid = match e.components().get(ComponentKind::Transform) {
            Some(Component::Transform(t)) => t.id(),
            _ => panic!("no transform"),
        };
        f32::from_bits(forced.transforms.get(tid).unwrap().global().translation.x)
    };
    let free_x = {
        let e = free.objects.get(b_id).unwrap();
        let tid = match e.components().get(ComponentKind::Transform) {
            Some(Component::Transform(t)) => t.id(),
            _ => panic!("no transform"),
        };
        f32::from_bits(free.transforms.get(tid).unwrap().global().translation.x)
    };

    assert_eq!(free_x, 0.0);
    assert!(forced_x > 0.0, "force along +x should move the body: {forced_x}");
}

#[test]
fn command_against_nonexistent_entity_errors_and_alters_nothing() {
    let mut transforms = TransformRegistry::new();
    let mut entities = EntityRegistry::new();
    let obj = new_object(at(0.0, 10.0, 0.0), None, dynamic_ball(), &mut transforms);
    let id = obj.id();
    entities.add(obj);
    let mut engine = Engine::new(RendererType::ThreeD, entities, transforms, 0);

    let bogus = id.wrapping_add(1);
    let r = engine.physics_engine.handle_command(
        &engine.objects,
        PhysicsCommand::ApplyImpulse { id: bogus, impulse: v3(100.0, 100.0, 100.0) },
    );
    assert_eq!(r, Err(PhysicsError::NoEntity(bogus)));

    // The other entity's state is untouched: its body handle and its
    // transform read back exactly as before.
    assert!(matches!(body_state(&engine.objects, id), RigidBodyState::Active(_)));
    assert_eq!(y_position(&engine, id), 10.0);
}

#[test]
fn command_error_taxonomy() {
    let mut transforms = TransformRegistry::new();
    let mut entities = EntityRegistry::new();
    let plain = new_object(at(0.0, 0.0, 0.0), None, ComponentSet::new(), &mut transforms);
    let plain_id = plain.id();
    entities.add(plain);

    let mut engine = Engine::new(RendererType::ThreeD, entities, transforms, 0);

    // Not implemented, whatever the target.
    assert_eq!(
        engine.physics_engine.handle_command(&engine.objects, PhysicsCommand::Enable { id: plain_id }),
        Err(PhysicsError::NotImplemented)
    );

    // An entity without a body component.
    assert_eq!(
        engine.physics_engine.handle_command(
            &engine.objects,
            PhysicsCommand::SetTranslation { id: plain_id, translation: v3(1.0, 1.0, 1.0) },
        ),
        Err(PhysicsError::NoBody(plain_id))
    );

    // A body added after construction is still pending.
    let late = new_object(at(0.0, 1.0, 0.0), None, dynamic_ball(), &mut engine.transforms);
    let late_id = late.id();
    engine.objects.add(late);
    assert_eq!(
        engine.physics_engine.handle_command(
            &engine.objects,
            PhysicsCommand::ApplyTorque { id: late_id, torque: v3(0.0, 1.0, 0.0) },
        ),
        Err(PhysicsError::BodyPending(late_id))
    );

    // A removed body is inert.
    let mut removed_components = ComponentSet::new();
    removed_components.add(Component::PhysicsBody(PhysicsBody {
        collider: ColliderDesc { shape: ShapeDesc::Ball { radius: 1.0f32.to_bits() } },
        rigid_body: RigidBodyState::Removed,
    }));
    let removed = new_object(at(0.0, 1.0, 0.0), None, removed_components, &mut engine.transforms);
    let removed_id = removed.id();
    engine.objects.add(removed);
    assert_eq!(
        engine.physics_engine.handle_command(
            &engine.objects,
            PhysicsCommand::SetRotation {
                id: removed_id,
                rotation: Quat::new(0, 0, 0, 1.0f32.to_bits()),
            },
        ),
        Err(PhysicsError::BodyRemoved(removed_id))
    );

    // A stale handle leads to no rigid body.
    let mut stale_components = ComponentSet::new();
    stale_components.add(Component::PhysicsBody(PhysicsBody {
        collider: ColliderDesc { shape: ShapeDesc::Ball { radius: 1.0f32.to_bits() } },
        rigid_body: RigidBodyState::Active(BodyHandle { index: 4040, generation: 7 }),
    }));
    let stale = new_object(at(0.0, 1.0, 0.0), None, stale_components, &mut engine.transforms);
    let stale_id = stale.id();
    engine.objects.add(stale);
    assert_eq!(
        engine.physics_engine.handle_command(
            &engine.objects,
            PhysicsCommand::SetLinearVelocity { id: stale_id, velocity: v3(0.0, 0.0, 1.0) },
        ),
        Err(PhysicsError::MissingRigidBody(stale_id))
    );
}

#[test]
fn seeding_skips_active_and_removed_bodies() {
    let mut transforms = TransformRegistry::new();
    let mut entities = EntityRegistry::new();

    let stale_handle = BodyHandle { index: 11, generation: 3 };
    let mut already_active = ComponentSet::new();
    already_active.add(Component::PhysicsBody(PhysicsBody {
        collider: ColliderDesc { shape: ShapeDesc::Ball { radius: 1.0f32.to_bits() } },
        rigid_body: RigidBodyState::Active(stale_handle),
    }));
    let active_entity = new_object(at(0.0, 0.0, 0.0), None, already_active, &mut transforms);
    let active_id = active_entity.id();
    entities.add(active_entity);

    let mut removed = ComponentSet::new();
    removed.add(Component::PhysicsBody(PhysicsBody {
        collider: ColliderDesc { shape: ShapeDesc::Cuboid {
            hx: 1.0f32.to_bits(),
            hy: 1.0f32.to_bits(),
            hz: 1.0f32.to_bits(),
        } },
        rigid_body: RigidBodyState::Removed,
    }));
    let removed_entity = new_object(at(0.0, 0.0, 0.0), None, removed, &mut transforms);
    let removed_id = removed_entity.id();
    entities.add(removed_entity);

    let _bridge = PhysicsEngine::new(v3(0.0, -9.81, 0.0), &mut entities, &transforms);

    assert_eq!(body_state(&entities, active_id), RigidBodyState::Active(stale_handle));
    assert_eq!(body_state(&entities, removed_id), RigidBodyState::Removed);
}
