//! Tests for the component store: the per-kind round trip, replacement,
//! removal, mutation in place, and labels.

use game_engine_lib::component::{Component, ComponentKind, ComponentSet, Parent, Children};
use game_engine_lib::physics::{BodyDesc, BodyKind, ColliderDesc, PhysicsBody, RigidBodyState, ShapeDesc};

#[test]
fn add_then_get_round_trips() {
    let mut set = ComponentSet::new();
    let parent = Parent::new(11, 22);
    set.add(Component::Parent(parent));

    let got = set.get(ComponentKind::Parent).unwrap();
    assert_eq!(*got, Component::Parent(parent));
    assert!(set.has(ComponentKind::Parent));
    assert!(!set.has(ComponentKind::Transform));
}

#[test]
fn add_replaces_by_kind() {
    let mut set = ComponentSet::new();
    set.add(Component::Parent(Parent::new(1, 2)));
    set.add(Component::Parent(Parent::new(3, 4)));

    assert_eq!(*set.get(ComponentKind::Parent).unwrap(), Component::Parent(Parent::new(3, 4)));
}

#[test]
fn remove_detaches_and_returns() {
    let mut set = ComponentSet::new();
    set.add(Component::Children(Children::new(5, vec![6, 7])));

    let removed = set.remove(ComponentKind::Children).unwrap();
    assert_eq!(removed, Component::Children(Children::new(5, vec![6, 7])));
    assert!(!set.has(ComponentKind::Children));
    assert!(set.remove(ComponentKind::Children).is_none());
}

#[test]
fn get_absent_kind_is_none() {
    let set = ComponentSet::new();
    assert!(set.get(ComponentKind::PhysicsBody).is_none());
}

#[test]
fn get_mut_writes_into_store() {
    let mut set = ComponentSet::new();
    set.add(Component::Parent(Parent::new(1, 2)));

    match set.get_mut(ComponentKind::Parent) {
        Some(Component::Parent(p)) => {
            p.parent = 42;
        },
        _ => panic!("parent component expected"),
    }

    assert_eq!(*set.get(ComponentKind::Parent).unwrap(), Component::Parent(Parent::new(42, 2)));
    assert!(set.get_mut(ComponentKind::Transform).is_none());
}

#[test]
fn labels_name_the_kind() {
    let pb = PhysicsBody::new(
        ColliderDesc { shape: ShapeDesc::Ball { radius: 10.0f32.to_bits() } },
        BodyDesc { kind: BodyKind::Dynamic },
    );
    assert!(matches!(pb.rigid_body, RigidBodyState::Pending(_)));
    let c = Component::PhysicsBody(pb);
    assert_eq!(c.label(), "PhysicsBody");
    assert_eq!(Component::Parent(Parent::new(0, 0)).label(), "Parent");
}

#[test]
fn test_component_label() {
    let pb = PhysicsBody::new(
        ColliderDesc { shape: ShapeDesc::Ball { radius: 10.0f32.to_bits() } },
        BodyDesc { kind: BodyKind::Dynamic },
    );
    assert_eq!(pb.label(), "PhysicsBody");
}
