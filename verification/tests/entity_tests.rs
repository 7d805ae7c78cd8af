//! Tests for entities and the entity registry: identity, lookup,
//! snapshots, input broadcast, and message queues.

use game_engine_lib::component::{Children, Component, ComponentKind, ComponentSet, Parent};
use game_engine_lib::entity::{default_camera, new_object, CameraSettings, EntityKind, EntityRegistry};
use game_engine_lib::event::EventHandler;
use game_engine_lib::math::{BasicTransform, Quat, Vec3};
use game_engine_lib::messages::WindowEvent;
use game_engine_lib::transform::TransformRegistry;

fn v3(x: f32, y: f32, z: f32) -> Vec3 {
    Vec3::new(x.to_bits(), y.to_bits(), z.to_bits())
}

fn identity() -> BasicTransform {
    BasicTransform {
        translation: v3(0.0, 0.0, 0.0),
        rotation: Quat::new(0.0f32.to_bits(), 0.0f32.to_bits(), 0.0f32.to_bits(), 1.0f32.to_bits()),
        scale: v3(1.0, 1.0, 1.0),
    }
}

fn camera_settings() -> CameraSettings {
    CameraSettings {
        width: 1920,
        height: 1080,
        up: v3(0.0, 1.0, 0.0),
        forward: v3(0.0, 0.0, -1.0),
        fov: 2.0f32.to_bits(),
        near: 0.1f32.to_bits(),
        far: 500.0f32.to_bits(),
    }
}

#[test]
fn new_object_attaches_a_transform_component() {
    let mut transforms = TransformRegistry::new();
    let e = new_object(identity(), Some(4), ComponentSet::new(), &mut transforms);
    assert_eq!(e.kind, EntityKind::Object);
    assert_eq!(*e.model(), Some(4));
    match e.components().get(ComponentKind::Transform) {
        Some(game_engine_lib::component::Component::Transform(t)) => {
            assert_eq!(t.local(&transforms).unwrap(), identity());
        },
        _ => panic!("transform component expected"),
    }
}

#[test]
fn registry_add_get_len_remove() {
    let mut transforms = TransformRegistry::new();
    let mut entities = EntityRegistry::new();

    let a = new_object(identity(), None, ComponentSet::new(), &mut transforms);
    let b = new_object(identity(), None, ComponentSet::new(), &mut transforms);
    let a_id = a.id();
    let b_id = b.id();

    entities.add(a);
    entities.add(b);
    assert_eq!(entities.len(), 2);
    assert_eq!(entities.get(a_id).unwrap().id(), a_id);
    assert_eq!(entities.ids(), vec![a_id, b_id]);

    entities.remove(a_id);
    assert_eq!(entities.len(), 1);
    assert!(entities.get(a_id).is_none());
    assert_eq!(entities.ids(), vec![b_id]);
}

#[test]
fn snapshot_is_stable_under_later_inserts() {
    let mut transforms = TransformRegistry::new();
    let mut entities = EntityRegistry::new();
    let a = new_object(identity(), None, ComponentSet::new(), &mut transforms);
    let a_id = a.id();
    entities.add(a);

    let snapshot = entities.ids();

    let b = new_object(identity(), None, ComponentSet::new(), &mut transforms);
    entities.add(b);

    assert_eq!(snapshot, vec![a_id]);
    assert_eq!(entities.ids().len(), 2);
}

#[test]
fn broadcast_reaches_objects_and_spares_cameras() {
    let mut transforms = TransformRegistry::new();
    let mut entities = EntityRegistry::new();

    let camera = default_camera(identity(), camera_settings(), &mut transforms);
    let object = new_object(identity(), None, ComponentSet::new(), &mut transforms);
    let camera_id = camera.id();
    let object_id = object.id();
    entities.add(camera);
    entities.add(object);

    let handler = EventHandler::new();
    let event = WindowEvent::KeyboardInput { key: 17, pressed: true };
    handler.send_event(&mut entities, 1, &event);

    assert!(entities.get(camera_id).unwrap().recorded_inputs().is_empty());
    assert_eq!(*entities.get(object_id).unwrap().recorded_inputs(), vec![event]);

    handler.send_event(&mut entities, 1, &WindowEvent::CloseRequested);
    assert_eq!(
        *entities.get(object_id).unwrap().recorded_inputs(),
        vec![event, WindowEvent::CloseRequested]
    );
}

#[test]
fn attach_children_stamps_parent_components() {
    let mut transforms = TransformRegistry::new();
    let mut entities = EntityRegistry::new();

    let parent = new_object(identity(), None, ComponentSet::new(), &mut transforms);
    let parent_id = parent.id();
    entities.add(parent);

    let c1 = new_object(identity(), None, ComponentSet::new(), &mut transforms);
    let c2 = new_object(identity(), None, ComponentSet::new(), &mut transforms);
    let c1_id = c1.id();
    let c2_id = c2.id();

    let children = Children::attach(parent_id, vec![c1, c2], &mut entities);

    assert_eq!(children.parent, parent_id);
    assert_eq!(*children.get_ids(), vec![c1_id, c2_id]);
    for child_id in [c1_id, c2_id] {
        let child = entities.get(child_id).unwrap();
        match child.components().get(ComponentKind::Parent) {
            Some(Component::Parent(p)) => {
                assert_eq!(*p, Parent::new(parent_id, child_id));
                assert_eq!(p.get_id(), parent_id);
            },
            _ => panic!("parent component expected"),
        }
    }
}

#[test]
fn entity_message_queue_clears() {
    let mut transforms = TransformRegistry::new();
    let mut e = new_object(identity(), None, ComponentSet::new(), &mut transforms);
    let msg = game_engine_lib::messages::route_window_event(3, WindowEvent::CloseRequested);
    e.send_message(msg);
    assert_eq!(e.get_messages().len(), 1);
    e.clear_messages();
    assert!(e.get_messages().is_empty());
}
