//! Entities and the entity registry.
//!
//! An entity is a uniquely-identified bearer of components and behavior.
//! The registry owns every entity once added, looks entities up by id, and
//! hands out consistent id snapshots for iteration.

use std::collections::HashMap;

use vstd::prelude::*;

use crate::component::{Component, ComponentKind, ComponentSet};
use crate::math::{BasicTransform, Vec3};
use crate::messages::{Message, WindowEvent};
use crate::transform::{Transform, TransformRegistry};

verus! {

broadcast use vstd::std_specs::hash::group_hash_axioms;

/// Camera parameters; scalar fields are IEEE 754 single-precision bit
/// patterns, sizes are pixel counts.
#[derive(Clone, Copy, Debug, PartialEq, Eq, Structural, Hash)]
pub struct CameraSettings {
    pub width: u32,
    pub height: u32,
    pub up: Vec3,
    pub forward: Vec3,
    pub fov: u32,
    pub near: u32,
    pub far: u32,
}

/// What capability profile an entity implements.  A camera ignores input;
/// a generic object records every input event handed to it.
#[derive(Clone, Copy, Debug, PartialEq, Eq, Structural, Hash)]
pub enum EntityKind {
    Camera(CameraSettings),
    Object,
}

/// A uniquely-identified bearer of components and behavior.
#[derive(Clone, Debug)]
pub struct Entity {
    pub id: u64,
    pub kind: EntityKind,
    pub components: ComponentSet,
    pub messages: Vec<Message>,
    pub model: Option<u64>,
    pub inputs: Vec<WindowEvent>,
}

/// How one input event changes an entity: a camera is left untouched, a
/// generic object records the event; nothing else about the entity moves.
pub open spec fn input_applied(pre: Entity, post: Entity, event: WindowEvent) -> bool {
    &&& post.id == pre.id
    &&& post.kind == pre.kind
    &&& post.components == pre.components
    &&& post.messages == pre.messages
    &&& post.model == pre.model
    &&& match pre.kind {
        EntityKind::Camera(_) => post.inputs@ == pre.inputs@,
        EntityKind::Object => post.inputs@ == pre.inputs@.push(event),
    }
}

impl Entity {
    pub fn id(&self) -> (r: u64)
        ensures
            r == self.id,
    {
        self.id
    }

    pub fn model(&self) -> (r: &Option<u64>)
        ensures
            *r == self.model,
    {
        &self.model
    }

    pub fn components(&self) -> (r: &ComponentSet)
        ensures
            *r == self.components,
    {
        &self.components
    }

    /// Mutable access to the component store; the caller's writes land in
    /// this entity.
    pub fn components_mut(&mut self) -> (r: &mut ComponentSet)
        ensures
            *r == old(self).components,
            final(self).components == *final(r),
            final(self).id == old(self).id,
            final(self).kind == old(self).kind,
            final(self).messages == old(self).messages,
            final(self).model == old(self).model,
            final(self).inputs == old(self).inputs,
    {
        &mut self.components
    }

    pub fn get_messages(&self) -> (r: &Vec<Message>)
        ensures
            r@ == self.messages@,
    {
        &self.messages
    }

    pub fn clear_messages(&mut self)
        ensures
            final(self).messages@ == Seq::<Message>::empty(),
            final(self).id == old(self).id,
            final(self).kind == old(self).kind,
            final(self).components == old(self).components,
            final(self).model == old(self).model,
            final(self).inputs == old(self).inputs,
    {
        self.messages.clear();
    }

    /// Queues a message in this entity's outgoing queue, to be collected
    /// by the orchestrator on the next drain cycle.
    pub fn send_message(&mut self, message: Message)
        ensures
            final(self).messages@ == old(self).messages@.push(message),
            final(self).id == old(self).id,
            final(self).kind == old(self).kind,
            final(self).components == old(self).components,
            final(self).model == old(self).model,
            final(self).inputs == old(self).inputs,
    {
        self.messages.push(message);
    }

    /// One per-frame update tick; `delta` is the frame time in
    /// milliseconds as an IEEE 754 double-precision bit pattern.  The
    /// built-in entity kinds define no per-frame behavior of their own —
    /// behavior lives with the application — so the entity is unchanged.
    pub fn update(&mut self, delta: u64)
        ensures
            *final(self) == *old(self),
    {
        let _ = delta;
    }

    /// One physics-cadence update tick; like [`Entity::update`], the
    /// built-in kinds define no behavior of their own here.
    pub fn physics_update(&mut self, delta: u64)
        ensures
            *final(self) == *old(self),
    {
        let _ = delta;
    }

    /// Hands one decoded input event to this entity's input handler.
    pub fn input(&mut self, event: &WindowEvent)
        ensures
            input_applied(*old(self), *final(self), *event),
    {
        match self.kind {
            EntityKind::Camera(_) => {},
            EntityKind::Object => {
                self.inputs.push(*event);
            },
        }
    }

    /// The events this entity's input handler has recorded so far.
    pub fn recorded_inputs(&self) -> (r: &Vec<WindowEvent>)
        ensures
            r@ == self.inputs@,
    {
        &self.inputs
    }
}

/// Relies on `uuid::Uuid::new_v4` for a fresh random identifier; nothing
/// is promised of the value.
#[verifier::external_body]
fn fresh_entity_id() -> (r: u64) {
    let (hi, _lo) = uuid::Uuid::new_v4().as_u64_pair();
    hi
}

/// Creates a generic object entity: registers a parentless transform with
/// the registry, attaches the handle to the given components, and draws a
/// fresh id.
pub fn new_object(
    transform: BasicTransform,
    model: Option<u64>,
    components: ComponentSet,
    registry: &mut TransformRegistry,
) -> (e: Entity)
    requires
        old(registry).wf(),
        old(registry).next_key() < u64::MAX,
    ensures
        final(registry).wf(),
        e.kind == EntityKind::Object,
        e.model == model,
        e.messages@ == Seq::<Message>::empty(),
        e.inputs@ == Seq::<WindowEvent>::empty(),
        e.components@ == components@.insert(
            crate::component::kind_code(ComponentKind::Transform),
            Component::Transform(Transform { id: crate::transform::TransformId(old(registry).next_key()) }),
        ),
        final(registry).next_key() == old(registry).next_key() + 1,
        final(registry)@ == old(registry)@.insert(
            old(registry).next_key(),
            (crate::transform::RegistryTransform {
                id: crate::transform::TransformId(old(registry).next_key()),
                parent: None,
                local: transform,
                global: transform,
            }),
        ),
{
    let handle = registry.transform(transform.translation, transform.rotation, transform.scale, None);
    let mut components = components;
    components.add(Component::Transform(handle));
    Entity {
        id: fresh_entity_id(),
        kind: EntityKind::Object,
        components,
        messages: Vec::new(),
        model,
        inputs: Vec::new(),
    }
}

/// Creates the default camera entity: registers a parentless transform
/// and carries the camera parameters; a camera renders nothing itself and
/// ignores input.
pub fn default_camera(
    transform: BasicTransform,
    settings: CameraSettings,
    registry: &mut TransformRegistry,
) -> (e: Entity)
    requires
        old(registry).wf(),
        old(registry).next_key() < u64::MAX,
    ensures
        final(registry).wf(),
        e.kind == EntityKind::Camera(settings),
        e.model is None,
        e.messages@ == Seq::<Message>::empty(),
        e.inputs@ == Seq::<WindowEvent>::empty(),
        e.components@ == Map::<u64, Component>::empty().insert(
            crate::component::kind_code(ComponentKind::Transform),
            Component::Transform(Transform { id: crate::transform::TransformId(old(registry).next_key()) }),
        ),
        final(registry).next_key() == old(registry).next_key() + 1,
        final(registry)@ == old(registry)@.insert(
            old(registry).next_key(),
            (crate::transform::RegistryTransform {
                id: crate::transform::TransformId(old(registry).next_key()),
                parent: None,
                local: transform,
                global: transform,
            }),
        ),
{
    let handle = registry.transform(transform.translation, transform.rotation, transform.scale, None);
    let mut components = ComponentSet::new();
    components.add(Component::Transform(handle));
    Entity {
        id: fresh_entity_id(),
        kind: EntityKind::Camera(settings),
        components,
        messages: Vec::new(),
        model: None,
        inputs: Vec::new(),
    }
}

/// The registry that owns all entities, keyed by id, with a stable
/// insertion order for deterministic iteration.
#[derive(Clone, Debug)]
pub struct EntityRegistry {
    entities: HashMap<u64, Entity>,
    order: Vec<u64>,
}

impl View for EntityRegistry {
    type V = Map<u64, Entity>;

    closed spec fn view(&self) -> Map<u64, Entity> {
        self.entities@
    }
}

impl EntityRegistry {
    /// The ids in insertion order; iteration and message draining follow
    /// this order.
    pub closed spec fn order_spec(self) -> Seq<u64> {
        self.order@
    }

    /// Validity of a registry value: the insertion-order list names
    /// exactly the stored ids, once each, and every entity sits under its
    /// own id.
    pub open spec fn wf(self) -> bool {
        &&& forall|k: u64| #[trigger] self@.contains_key(k) <==> self.order_spec().contains(k)
        &&& self.order_spec().no_duplicates()
        &&& forall|k: u64| #[trigger] self@.contains_key(k) ==> self@[k].id == k
    }

    pub fn new() -> (r: Self)
        ensures
            r@ == Map::<u64, Entity>::empty(),
            r.order_spec() == Seq::<u64>::empty(),
            r.wf(),
    {
        Self { entities: HashMap::new(), order: Vec::new() }
    }

    /// Adds an entity under its id, replacing any entity already stored
    /// under that id.
    pub fn add(&mut self, entity: Entity)
        requires
            old(self).wf(),
        ensures
            final(self).wf(),
            final(self)@ == old(self)@.insert(entity.id, entity),
            final(self).order_spec() == if old(self)@.contains_key(entity.id) {
                old(self).order_spec()
            } else {
                old(self).order_spec().push(entity.id)
            },
    {
        if !self.entities.contains_key(&entity.id) {
            self.order.push(entity.id);
        }
        let id = entity.id;
        self.entities.insert(id, entity);
        proof {
            assert forall|k: u64| #[trigger] self.entities@.contains_key(k) <==> self.order@.contains(
                k,
            ) by {
                if k != id {
                    assert(old(self)@.contains_key(k) <==> old(self).order_spec().contains(k));
                    if old(self).order_spec().contains(k) {
                        let i = choose|i: int|
                            0 <= i < old(self).order_spec().len() && old(self).order_spec()[i] == k;
                        assert(self.order@[i] == k);
                    }
                } else {
                    if !old(self)@.contains_key(id) {
                        assert(self.order@[self.order@.len() - 1] == id);
                    } else {
                        assert(old(self).order_spec().contains(id));
                    }
                }
            }
        }
    }

    /// Removes the entity stored under `id`, if any.
    pub fn remove(&mut self, id: u64)
        requires
            old(self).wf(),
        ensures
            final(self).wf(),
            final(self)@ == old(self)@.remove(id),
            !final(self).order_spec().contains(id),
            forall|k: u64| k != id ==> (final(self).order_spec().contains(k) <==> old(
                self,
            ).order_spec().contains(k)),
    {
        self.entities.remove(&id);
        let mut i: usize = 0;
        let ghost orig = self.order@;
        while i < self.order.len()
            invariant
                0 <= i <= self.order@.len(),
                self.order@ == orig,
                self.entities@ == old(self)@.remove(id),
                orig == old(self).order_spec(),
                old(self).wf(),
                forall|j: int| 0 <= j < i ==> orig[j] != id,
            decreases self.order@.len() - i,
        {
            if self.order[i] == id {
                self.order.remove(i);
                proof {
                    orig.remove_ensures(i as int);
                    assert(self.order@ == orig.remove(i as int));
                    assert forall|k: u64| #[trigger]
                        self.entities@.contains_key(k) <==> self.order@.contains(k) by {
                        if k != id {
                            if old(self).order_spec().contains(k) {
                                let jj = choose|jj: int| 0 <= jj < orig.len() && orig[jj] == k;
                                assert(orig[i as int] == id);
                                if jj < i as int {
                                    assert(orig.remove(i as int)[jj] == orig[jj]);
                                    assert(self.order@[jj] == k);
                                } else {
                                    assert(jj != i as int);
                                    assert(orig.remove(i as int)[jj - 1] == orig[jj]);
                                    assert(self.order@[jj - 1] == k);
                                }
                            }
                            if self.order@.contains(k) {
                                let jj = choose|jj: int|
                                    0 <= jj < self.order@.len() && self.order@[jj] == k;
                                assert(orig.contains(k));
                            }
                        } else {
                            assert forall|jj: int| 0 <= jj < self.order@.len() implies self.order@[jj]
                                != id by {
                                assert(orig[i as int] == id);
                                if jj >= i as int {
                                    assert(orig.remove(i as int)[jj] == orig[jj + 1]);
                                } else {
                                    assert(orig.remove(i as int)[jj] == orig[jj]);
                                }
                            }
                        }
                    }
                    assert forall|k: u64| k != id implies (self.order@.contains(k) <==> orig.contains(
                        k,
                    )) by {
                        assert(orig[i as int] == id);
                        if orig.contains(k) {
                            let jj = choose|jj: int| 0 <= jj < orig.len() && orig[jj] == k;
                            if jj < i as int {
                                assert(orig.remove(i as int)[jj] == orig[jj]);
                                assert(self.order@[jj] == k);
                            } else {
                                assert(jj != i as int);
                                assert(orig.remove(i as int)[jj - 1] == orig[jj]);
                                assert(self.order@[jj - 1] == k);
                            }
                        }
                        if self.order@.contains(k) {
                            let jj = choose|jj: int|
                                0 <= jj < self.order@.len() && self.order@[jj] == k;
                            if jj < i as int {
                                assert(orig.remove(i as int)[jj] == orig[jj]);
                            } else {
                                assert(orig.remove(i as int)[jj] == orig[jj + 1]);
                            }
                            assert(orig.contains(k));
                        }
                    }
                    assert(self.order@.no_duplicates()) by {
                        assert forall|a: int, b: int|
                            0 <= a < b < self.order@.len() implies self.order@[a] != self.order@[b] by {
                            let aa = if a < i as int { a } else { a + 1 };
                            let bb = if b < i as int { b } else { b + 1 };
                            if a < i as int {
                                assert(orig.remove(i as int)[a] == orig[a]);
                            } else {
                                assert(orig.remove(i as int)[a] == orig[a + 1]);
                            }
                            if b < i as int {
                                assert(orig.remove(i as int)[b] == orig[b]);
                            } else {
                                assert(orig.remove(i as int)[b] == orig[b + 1]);
                            }
                            assert(self.order@[a] == orig[aa]);
                            assert(self.order@[b] == orig[bb]);
                        }
                    }
                }
                return ;
            }
            i += 1;
        }
        proof {
            assert(!orig.contains(id));
            assert(!old(self)@.contains_key(id));
            assert(self.entities@ =~= old(self)@.remove(id));
            assert forall|k: u64| #[trigger] self.entities@.contains_key(k) <==> self.order@.contains(
                k,
            ) by {
                assert(old(self)@.contains_key(k) <==> old(self).order_spec().contains(k));
            }
        }
    }

    /// The entity stored under `id`, or absent.
    pub fn get(&self, id: u64) -> (r: Option<&Entity>)
        ensures
            match r {
                Some(e) => self@.contains_key(id) && *e == self@[id],
                None => !self@.contains_key(id),
            },
    {
        self.entities.get(&id)
    }

    pub fn len(&self) -> (r: usize)
        ensures
            r == self@.len(),
    {
        self.entities.len()
    }

    /// A consistent snapshot of the stored ids, in insertion order.  The
    /// snapshot is cloned at the moment of call: later inserts or removes
    /// do not move it.
    pub fn ids(&self) -> (r: Vec<u64>)
        ensures
            r@ == self.order_spec(),
    {
        let mut out: Vec<u64> = Vec::new();
        let mut i: usize = 0;
        while i < self.order.len()
            invariant
                0 <= i <= self.order@.len(),
                out@ == self.order@.subrange(0, i as int),
            decreases self.order@.len() - i,
        {
            out.push(self.order[i]);
            i += 1;
        }
        proof {
            assert(out@ =~= self.order@);
        }
        out
    }

    /// Takes the entity stored under `id` out of the registry, leaving
    /// the iteration order in place; the caller puts it back with
    /// [`EntityRegistry::put`].
    pub(crate) fn take(&mut self, id: u64) -> (r: Option<Entity>)
        ensures
            final(self)@ == old(self)@.remove(id),
            final(self).order_spec() == old(self).order_spec(),
            match r {
                Some(e) => old(self)@.contains_key(id) && e == old(self)@[id],
                None => !old(self)@.contains_key(id),
            },
    {
        self.entities.remove(&id)
    }

    /// Puts an entity (back) under its id without touching the iteration
    /// order.
    pub(crate) fn put(&mut self, entity: Entity)
        ensures
            final(self)@ == old(self)@.insert(entity.id, entity),
            final(self).order_spec() == old(self).order_spec(),
    {
        let id = entity.id;
        self.entities.insert(id, entity);
    }
}

} // verus!
