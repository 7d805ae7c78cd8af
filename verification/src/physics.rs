//! The physics bridge: rigid-body descriptions carried by entities, the
//! command protocol aimed at the simulation, and the engine that owns the
//! authoritative physics world and keeps entity transforms consistent
//! with it.

use vstd::prelude::*;

use crate::component::{kind_code, Component, ComponentKind};
use crate::entity::{Entity, EntityRegistry};
use crate::math::{BasicTransform, Quat, Vec3};
use crate::transform::{RegistryTransform, TransformId, TransformRegistry};

verus! {

/// What kind of rigid body an entity asks for.
#[derive(Clone, Copy, Debug, PartialEq, Eq, Structural, Hash)]
pub enum BodyKind {
    Dynamic,
    Fixed,
}

/// A rigid-body description, held while the body is not yet registered
/// with the physics world.
#[derive(Clone, Copy, Debug, PartialEq, Eq, Structural, Hash)]
pub struct BodyDesc {
    pub kind: BodyKind,
}

/// A collision shape; scalar fields are IEEE 754 single-precision bit
/// patterns.
#[derive(Clone, Copy, Debug, PartialEq, Eq, Structural, Hash)]
pub enum ShapeDesc {
    Ball { radius: u32 },
    Cuboid { hx: u32, hy: u32, hz: u32 },
}

/// A collider description attached to a rigid body.
#[derive(Clone, Copy, Debug, PartialEq, Eq, Structural, Hash)]
pub struct ColliderDesc {
    pub shape: ShapeDesc,
}

/// An opaque handle into the physics world's rigid-body set.
#[derive(Clone, Copy, Debug, PartialEq, Eq, Structural, Hash)]
pub struct BodyHandle {
    pub index: u32,
    pub generation: u32,
}

/// The registration lifecycle of a simulated rigid body: `Pending` (not
/// yet registered; carries the full description), `Active` (registered;
/// carries the world handle), `Removed` (detached; inert and terminal).
#[derive(Clone, Copy, Debug, PartialEq, Eq, Structural, Hash)]
pub enum RigidBodyState {
    Pending(BodyDesc),
    Active(BodyHandle),
    Removed,
}

/// The component describing an entity's simulated-rigid-body intent.
#[derive(Clone, Copy, Debug, PartialEq, Eq, Structural, Hash)]
pub struct PhysicsBody {
    pub collider: ColliderDesc,
    pub rigid_body: RigidBodyState,
}

impl PhysicsBody {
    /// A new body starts out `Pending`, carrying its full description.
    pub fn new(collider: ColliderDesc, rigid_body: BodyDesc) -> (r: Self)
        ensures
            r.collider == collider,
            r.rigid_body == RigidBodyState::Pending(rigid_body),
    {
        Self { collider, rigid_body: RigidBodyState::Pending(rigid_body) }
    }

    /// The component label of a physics body.
    pub fn label(&self) -> (r: &'static str)
        ensures
            r@ == "PhysicsBody"@,
    {
        "PhysicsBody"
    }
}

/// A command aimed at one entity's rigid body.  Vector and quaternion
/// fields are IEEE 754 single-precision bit patterns.
#[derive(Clone, Copy, Debug, PartialEq, Eq, Structural, Hash)]
pub enum PhysicsCommand {
    Enable { id: u64 },
    Disable { id: u64 },
    ApplyForce { id: u64, force: Vec3 },
    ApplyTorque { id: u64, torque: Vec3 },
    ApplyImpulse { id: u64, impulse: Vec3 },
    ApplyTorqueImpulse { id: u64, impulse: Vec3 },
    SetLinearVelocity { id: u64, velocity: Vec3 },
    SetAngularVelocity { id: u64, velocity: Vec3 },
    SetPosition { id: u64, translation: Vec3, rotation: Quat },
    SetTranslation { id: u64, translation: Vec3 },
    SetRotation { id: u64, rotation: Quat },
}

/// Why a physics command was dropped.  Every case is recoverable: the
/// command is skipped and the simulation goes on.
#[derive(Clone, Copy, Debug, PartialEq, Eq, Structural, Hash)]
pub enum PhysicsError {
    /// No entity with the targeted id exists.
    NoEntity(u64),
    /// The targeted entity carries no physics-body component.
    NoBody(u64),
    /// The targeted body has not been registered with the world yet.
    BodyPending(u64),
    /// The targeted body has been detached; it is inert.
    BodyRemoved(u64),
    /// The body's world handle leads to no rigid body.
    MissingRigidBody(u64),
    /// The command is not implemented by this engine.
    NotImplemented,
}

/// The rigid-body state carried by an entity's physics-body component, if
/// it carries one.
pub open spec fn body_state_of(e: Entity) -> Option<RigidBodyState> {
    if e.components@.contains_key(kind_code(ComponentKind::PhysicsBody)) {
        match e.components@[kind_code(ComponentKind::PhysicsBody)] {
            Component::PhysicsBody(pb) => Some(pb.rigid_body),
            _ => None,
        }
    } else {
        None
    }
}

/// The collider description carried by an entity's physics-body
/// component.
pub open spec fn collider_of(e: Entity) -> ColliderDesc {
    match e.components@[kind_code(ComponentKind::PhysicsBody)] {
        Component::PhysicsBody(pb) => pb.collider,
        _ => ColliderDesc { shape: ShapeDesc::Ball { radius: 0 } },
    }
}

/// The transform id carried by an entity's transform-handle component, if
/// it carries one.
pub open spec fn transform_id_of(e: Entity) -> Option<TransformId> {
    if e.components@.contains_key(kind_code(ComponentKind::Transform)) {
        match e.components@[kind_code(ComponentKind::Transform)] {
            Component::Transform(t) => Some(t.id),
            _ => None,
        }
    } else {
        None
    }
}

/// Whether the entity holds a pending body and a transform the registry
/// can resolve, which is what world construction needs to register it.
pub open spec fn registrable(e: Entity, tmap: Map<u64, RegistryTransform>) -> bool {
    &&& body_state_of(e) matches Some(RigidBodyState::Pending(_))
    &&& transform_id_of(e) matches Some(tid) && crate::transform::resolved_global(
        tmap,
        tid.0,
    ) is Some
}

/// How world construction changes one entity: a pending body with a
/// resolvable transform becomes active under some world handle; any other
/// entity — no body, a body already active (a logic anomaly, skipped, and
/// never re-inserted), a removed body, or a pending body whose transform
/// the registry does not know — is left exactly as it was.
pub open spec fn seeded(pre: Entity, post: Entity, tmap: Map<u64, RegistryTransform>) -> bool {
    &&& post.id == pre.id
    &&& post.kind == pre.kind
    &&& post.messages == pre.messages
    &&& post.model == pre.model
    &&& post.inputs == pre.inputs
    &&& if registrable(pre, tmap) {
        exists|h: BodyHandle|
            post.components@ == pre.components@.insert(
                kind_code(ComponentKind::PhysicsBody),
                Component::PhysicsBody(
                    PhysicsBody { collider: collider_of(pre), rigid_body: RigidBodyState::Active(h) },
                ),
            )
    } else {
        post == pre
    }
}

/// The entity id a command targets.
pub open spec fn command_target(c: PhysicsCommand) -> u64 {
    match c {
        PhysicsCommand::Enable { id } => id,
        PhysicsCommand::Disable { id } => id,
        PhysicsCommand::ApplyForce { id, .. } => id,
        PhysicsCommand::ApplyTorque { id, .. } => id,
        PhysicsCommand::ApplyImpulse { id, .. } => id,
        PhysicsCommand::ApplyTorqueImpulse { id, .. } => id,
        PhysicsCommand::SetLinearVelocity { id, .. } => id,
        PhysicsCommand::SetAngularVelocity { id, .. } => id,
        PhysicsCommand::SetPosition { id, .. } => id,
        PhysicsCommand::SetTranslation { id, .. } => id,
        PhysicsCommand::SetRotation { id, .. } => id,
    }
}

/// The entity-level outcome of one command, a pure function of the
/// entity registry contents: the definite error for an unimplemented
/// command or a target that is missing, body-less, pending or removed;
/// nothing for a command on an active body, whose outcome depends on the
/// opaque world.
pub open spec fn lookup_outcome(m: Map<u64, Entity>, c: PhysicsCommand) -> Option<PhysicsError> {
    match c {
        PhysicsCommand::Enable { .. } | PhysicsCommand::Disable { .. } => Some(
            PhysicsError::NotImplemented,
        ),
        _ => {
            let id = command_target(c);
            if !m.contains_key(id) {
                Some(PhysicsError::NoEntity(id))
            } else {
                match body_state_of(m[id]) {
                    None => Some(PhysicsError::NoBody(id)),
                    Some(RigidBodyState::Pending(_)) => Some(PhysicsError::BodyPending(id)),
                    Some(RigidBodyState::Removed) => Some(PhysicsError::BodyRemoved(id)),
                    Some(RigidBodyState::Active(_)) => None,
                }
            }
        },
    }
}

/// How a step's error list relates to its command list: commands are
/// handled in order; a command whose entity-level lookup fails
/// contributes exactly its [`lookup_outcome`] error, and a command on an
/// active body contributes nothing (it was applied) or the matching
/// `MissingRigidBody` error (its world handle was stale).
pub open spec fn errors_match(
    m: Map<u64, Entity>,
    commands: Seq<PhysicsCommand>,
    errors: Seq<PhysicsError>,
) -> bool
    decreases commands.len(),
{
    if commands.len() == 0 {
        errors.len() == 0
    } else {
        match lookup_outcome(m, commands[0]) {
            Some(e) => errors.len() > 0 && errors[0] == e && errors_match(
                m,
                commands.drop_first(),
                errors.drop_first(),
            ),
            None => errors_match(m, commands.drop_first(), errors) || (errors.len() > 0
                && errors[0] == PhysicsError::MissingRigidBody(command_target(commands[0]))
                && errors_match(m, commands.drop_first(), errors.drop_first())),
        }
    }
}

/// Appending one handled command to a matching error list keeps it
/// matching.
proof fn lemma_errors_match_snoc(
    m: Map<u64, Entity>,
    commands: Seq<PhysicsCommand>,
    errors: Seq<PhysicsError>,
    c: PhysicsCommand,
    extra: Seq<PhysicsError>,
)
    requires
        errors_match(m, commands, errors),
        match lookup_outcome(m, c) {
            Some(e) => extra == seq![e],
            None => extra == Seq::<PhysicsError>::empty() || extra == seq![
                PhysicsError::MissingRigidBody(command_target(c)),
            ],
        },
    ensures
        errors_match(m, commands.push(c), errors + extra),
    decreases commands.len(),
{
    let cs = commands.push(c);
    let es = errors + extra;
    if commands.len() == 0 {
        assert(errors =~= Seq::<PhysicsError>::empty());
        assert(es =~= extra);
        assert(cs[0] == c);
        assert(cs.drop_first() =~= Seq::<PhysicsCommand>::empty());
        assert(errors_match(m, Seq::<PhysicsCommand>::empty(), Seq::<PhysicsError>::empty()));
        match lookup_outcome(m, c) {
            Some(e) => {
                assert(extra.len() > 0 && extra[0] == e);
                assert(extra.drop_first() =~= Seq::<PhysicsError>::empty());
                assert(errors_match(m, cs, es));
            },
            None => {
                if extra.len() > 0 {
                    assert(extra[0] == PhysicsError::MissingRigidBody(command_target(c)));
                    assert(extra.drop_first() =~= Seq::<PhysicsError>::empty());
                }
                assert(errors_match(m, cs, es));
            },
        }
    } else {
        assert(cs[0] == commands[0]);
        assert(cs.drop_first() =~= commands.drop_first().push(c));
        match lookup_outcome(m, commands[0]) {
            Some(e) => {
                assert(errors.len() > 0 && errors[0] == e);
                lemma_errors_match_snoc(m, commands.drop_first(), errors.drop_first(), c, extra);
                assert(es.len() > 0 && es[0] == e);
                assert(es.drop_first() =~= errors.drop_first() + extra);
                assert(errors_match(m, cs.drop_first(), es.drop_first()));
                assert(errors_match(m, cs, es));
            },
            None => {
                if errors_match(m, commands.drop_first(), errors) {
                    lemma_errors_match_snoc(m, commands.drop_first(), errors, c, extra);
                    assert(errors_match(m, cs.drop_first(), es));
                    assert(errors_match(m, cs, es));
                } else {
                    assert(errors.len() > 0 && errors[0] == PhysicsError::MissingRigidBody(
                        command_target(commands[0]),
                    ));
                    lemma_errors_match_snoc(
                        m,
                        commands.drop_first(),
                        errors.drop_first(),
                        c,
                        extra,
                    );
                    assert(es.len() > 0 && es[0] == errors[0]);
                    assert(es.drop_first() =~= errors.drop_first() + extra);
                    assert(errors_match(m, cs.drop_first(), es.drop_first()));
                    assert(errors_match(m, cs, es));
                }
            },
        }
    }
}

/// Whether the transform node `t` is named by some entity that carries
/// an active physics body: exactly the nodes a step's publication phase
/// may write.
pub open spec fn published_target(m: Map<u64, Entity>, t: u64) -> bool {
    exists|k: u64|
        #[trigger] m.contains_key(k) && (body_state_of(m[k]) matches Some(
            RigidBodyState::Active(_),
        )) && transform_id_of(m[k]) == Some(TransformId(t))
}

/// Declares `rapier3d`'s bundled physics world (rigid-body set, collider
/// set, broad/narrow phase and solver state) so a verified struct can own
/// it; the world is opaque to the verifier and is only touched through
/// the trusted wrappers below.
#[verifier::external_type_specification]
#[verifier::external_body]
pub struct ExPhysicsWorld(rapier3d::pipeline::PhysicsWorld);

/// Relies on `rapier3d::pipeline::PhysicsWorld::new` for a fresh, empty
/// world, with its gravity field set from the given vector.
#[verifier::external_body]
fn new_world(gravity: Vec3) -> rapier3d::pipeline::PhysicsWorld {
    let mut w = rapier3d::pipeline::PhysicsWorld::new();
    w.gravity = rapier3d::math::Vector::from_array(bytemuck::cast([gravity.x, gravity.y, gravity.z]));
    w
}

/// Relies on `rapier3d`'s `RigidBodySet::insert`; the body is built from
/// the description and placed at the given pose, and the fresh handle is
/// returned.
#[verifier::external_body]
fn world_insert_body(
    w: &mut rapier3d::pipeline::PhysicsWorld,
    desc: &BodyDesc,
    pos: Vec3,
    rot: Quat,
) -> (h: BodyHandle) {
    let builder = match desc.kind {
        BodyKind::Dynamic => rapier3d::prelude::RigidBodyBuilder::dynamic(),
        BodyKind::Fixed => rapier3d::prelude::RigidBodyBuilder::fixed(),
    };
    let pose = rapier3d::math::Pose::from_parts(
        rapier3d::math::Vector::from_array(bytemuck::cast([pos.x, pos.y, pos.z])),
        rapier3d::math::Rotation::from_array(bytemuck::cast([rot.x, rot.y, rot.z, rot.w])),
    );
    let (index, generation) = w.bodies.insert(builder.position(pose)).into_raw_parts();
    BodyHandle { index, generation }
}

/// Relies on `rapier3d`'s `ColliderSet::insert_with_parent`; the collider
/// is built from the description and attached to the given body.  The
/// insertion panics on a handle that leads to no rigid body, so the body
/// is looked up first and a miss is reported instead, like the sibling
/// wrappers do.
#[verifier::external_body]
fn world_attach_collider(
    w: &mut rapier3d::pipeline::PhysicsWorld,
    col: &ColliderDesc,
    h: BodyHandle,
) -> bool {
    let builder = match col.shape {
        ShapeDesc::Ball { radius } => rapier3d::prelude::ColliderBuilder::ball(bytemuck::cast(radius)),
        ShapeDesc::Cuboid { hx, hy, hz } => {
            rapier3d::prelude::ColliderBuilder::cuboid(bytemuck::cast(hx), bytemuck::cast(hy), bytemuck::cast(hz))
        },
    };
    let bh = rapier3d::prelude::RigidBodyHandle::from_raw_parts(h.index, h.generation);
    if w.bodies.get(bh).is_none() {
        return false;
    }
    w.colliders.insert_with_parent(builder, bh, &mut w.bodies);
    true
}

/// Relies on `rapier3d::pipeline::PhysicsWorld::step`; the world advances
/// by one timestep of `delta` seconds (an IEEE 754 single-precision bit
/// pattern).  The bound on `delta` admits exactly the bit patterns of
/// finite, non-negative numbers, so no NaN, infinite or negative
/// timestep ever reaches the integration parameters.
#[verifier::external_body]
fn world_step(w: &mut rapier3d::pipeline::PhysicsWorld, delta: u32)
    requires
        delta < 0x7F80_0000,
{
    w.integration_parameters.dt = bytemuck::cast(delta);
    w.step();
}

/// Relies on `rapier3d`'s `RigidBody::position` for the resolved pose of
/// the body behind `h`; absent when the handle leads to no rigid body.
#[verifier::external_body]
fn world_body_pose(w: &rapier3d::pipeline::PhysicsWorld, h: BodyHandle) -> Option<(Vec3, Quat)> {
    let bh = rapier3d::prelude::RigidBodyHandle::from_raw_parts(h.index, h.generation);
    w.bodies.get(bh).map(|rb| {
        let pose = rb.position();
        let t: [u32; 3] = bytemuck::cast(pose.translation.to_array());
        let r: [u32; 4] = bytemuck::cast(pose.rotation.to_array());
        (
            Vec3 { x: t[0], y: t[1], z: t[2] },
            Quat { x: r[0], y: r[1], z: r[2], w: r[3] },
        )
    })
}

/// Relies on `rapier3d`'s `RigidBody::add_force`; reports whether the
/// handle led to a rigid body.
#[verifier::external_body]
fn world_add_force(w: &mut rapier3d::pipeline::PhysicsWorld, h: BodyHandle, v: Vec3) -> bool {
    let bh = rapier3d::prelude::RigidBodyHandle::from_raw_parts(h.index, h.generation);
    match w.bodies.get_mut(bh) {
        Some(rb) => {
            rb.add_force(rapier3d::math::Vector::from_array(bytemuck::cast([v.x, v.y, v.z])), true);
            true
        },
        None => false,
    }
}

/// Relies on `rapier3d`'s `RigidBody::add_torque`; reports whether the
/// handle led to a rigid body.
#[verifier::external_body]
fn world_add_torque(w: &mut rapier3d::pipeline::PhysicsWorld, h: BodyHandle, v: Vec3) -> bool {
    let bh = rapier3d::prelude::RigidBodyHandle::from_raw_parts(h.index, h.generation);
    match w.bodies.get_mut(bh) {
        Some(rb) => {
            rb.add_torque(rapier3d::math::Vector::from_array(bytemuck::cast([v.x, v.y, v.z])), true);
            true
        },
        None => false,
    }
}

/// Relies on `rapier3d`'s `RigidBody::apply_impulse`; reports whether the
/// handle led to a rigid body.
#[verifier::external_body]
fn world_apply_impulse(w: &mut rapier3d::pipeline::PhysicsWorld, h: BodyHandle, v: Vec3) -> bool {
    let bh = rapier3d::prelude::RigidBodyHandle::from_raw_parts(h.index, h.generation);
    match w.bodies.get_mut(bh) {
        Some(rb) => {
            rb.apply_impulse(
                rapier3d::math::Vector::from_array(bytemuck::cast([v.x, v.y, v.z])),
                true,
            );
            true
        },
        None => false,
    }
}

/// Relies on `rapier3d`'s `RigidBody::apply_torque_impulse`; reports
/// whether the handle led to a rigid body.
#[verifier::external_body]
fn world_apply_torque_impulse(
    w: &mut rapier3d::pipeline::PhysicsWorld,
    h: BodyHandle,
    v: Vec3,
) -> bool {
    let bh = rapier3d::prelude::RigidBodyHandle::from_raw_parts(h.index, h.generation);
    match w.bodies.get_mut(bh) {
        Some(rb) => {
            rb.apply_torque_impulse(
                rapier3d::math::Vector::from_array(bytemuck::cast([v.x, v.y, v.z])),
                true,
            );
            true
        },
        None => false,
    }
}

/// Relies on `rapier3d`'s `RigidBody::set_linvel`; reports whether the
/// handle led to a rigid body.
#[verifier::external_body]
fn world_set_linvel(w: &mut rapier3d::pipeline::PhysicsWorld, h: BodyHandle, v: Vec3) -> bool {
    let bh = rapier3d::prelude::RigidBodyHandle::from_raw_parts(h.index, h.generation);
    match w.bodies.get_mut(bh) {
        Some(rb) => {
            rb.set_linvel(rapier3d::math::Vector::from_array(bytemuck::cast([v.x, v.y, v.z])), true);
            true
        },
        None => false,
    }
}

/// Relies on `rapier3d`'s `RigidBody::set_angvel`; reports whether the
/// handle led to a rigid body.
#[verifier::external_body]
fn world_set_angvel(w: &mut rapier3d::pipeline::PhysicsWorld, h: BodyHandle, v: Vec3) -> bool {
    let bh = rapier3d::prelude::RigidBodyHandle::from_raw_parts(h.index, h.generation);
    match w.bodies.get_mut(bh) {
        Some(rb) => {
            rb.set_angvel(rapier3d::math::Vector::from_array(bytemuck::cast([v.x, v.y, v.z])), true);
            true
        },
        None => false,
    }
}

/// Relies on `rapier3d`'s `RigidBody::set_position`; reports whether the
/// handle led to a rigid body.
#[verifier::external_body]
fn world_set_position(
    w: &mut rapier3d::pipeline::PhysicsWorld,
    h: BodyHandle,
    t: Vec3,
    r: Quat,
) -> bool {
    let bh = rapier3d::prelude::RigidBodyHandle::from_raw_parts(h.index, h.generation);
    match w.bodies.get_mut(bh) {
        Some(rb) => {
            rb.set_position(
                rapier3d::math::Pose::from_parts(
                    rapier3d::math::Vector::from_array(bytemuck::cast([t.x, t.y, t.z])),
                    rapier3d::math::Rotation::from_array(bytemuck::cast([r.x, r.y, r.z, r.w])),
                ),
                true,
            );
            true
        },
        None => false,
    }
}

/// Relies on `rapier3d`'s `RigidBody::set_translation`; reports whether
/// the handle led to a rigid body.
#[verifier::external_body]
fn world_set_translation(w: &mut rapier3d::pipeline::PhysicsWorld, h: BodyHandle, t: Vec3) -> bool {
    let bh = rapier3d::prelude::RigidBodyHandle::from_raw_parts(h.index, h.generation);
    match w.bodies.get_mut(bh) {
        Some(rb) => {
            rb.set_translation(
                rapier3d::math::Vector::from_array(bytemuck::cast([t.x, t.y, t.z])),
                true,
            );
            true
        },
        None => false,
    }
}

/// Relies on `rapier3d`'s `RigidBody::set_rotation`; reports whether the
/// handle led to a rigid body.
#[verifier::external_body]
fn world_set_rotation(w: &mut rapier3d::pipeline::PhysicsWorld, h: BodyHandle, r: Quat) -> bool {
    let bh = rapier3d::prelude::RigidBodyHandle::from_raw_parts(h.index, h.generation);
    match w.bodies.get_mut(bh) {
        Some(rb) => {
            rb.set_rotation(
                rapier3d::math::Rotation::from_array(bytemuck::cast([r.x, r.y, r.z, r.w])),
                true,
            );
            true
        },
        None => false,
    }
}

/// The physics bridge: owns the authoritative rigid-body world, applies
/// queued commands, advances the simulation, and publishes resolved poses
/// back into the transform registry.
pub struct PhysicsEngine {
    /// The authoritative simulation state, owned exclusively by this
    /// bridge and only reached through the trusted wrappers above.
    pub world: rapier3d::pipeline::PhysicsWorld,
    pub gravity: Vec3,
}

impl PhysicsEngine {
    /// Builds the world and seeds it from every entity that carries a
    /// pending physics body: the body is inserted at the entity's current
    /// resolved transform and its component becomes `Active`.  Bodies
    /// found already `Active` or `Removed` are anomalies: they are
    /// skipped, never re-inserted.
    pub fn new(
        gravity: Vec3,
        entities: &mut EntityRegistry,
        transforms: &TransformRegistry,
    ) -> (r: PhysicsEngine)
        requires
            old(entities).wf(),
            transforms.wf(),
        ensures
            r.gravity == gravity,
            final(entities).wf(),
            final(entities).order_spec() == old(entities).order_spec(),
            final(entities)@.dom() == old(entities)@.dom(),
            forall|k: u64| #[trigger] old(entities)@.contains_key(k) ==> seeded(
                old(entities)@[k],
                final(entities)@[k],
                transforms@,
            ),
    {
        let mut world = new_world(gravity);
        let ids = entities.ids();
        let mut i: usize = 0;
        while i < ids.len()
            invariant
                0 <= i <= ids@.len(),
                ids@ == old(entities).order_spec(),
                old(entities).wf(),
                transforms.wf(),
                entities.order_spec() == old(entities).order_spec(),
                entities@.dom() == old(entities)@.dom(),
                forall|j: int| #![auto] i <= j < ids@.len() ==> entities@[ids@[j]] == old(
                    entities,
                )@[ids@[j]],
                forall|j: int| #![auto] 0 <= j < i ==> seeded(
                    old(entities)@[ids@[j]],
                    entities@[ids@[j]],
                    transforms@,
                ),
                forall|k: u64| #[trigger] entities@.contains_key(k) ==> entities@[k].id == k,
            decreases ids@.len() - i,
        {
            let id = ids[i];
            proof {
                assert(old(entities).order_spec().contains(id));
                assert(old(entities)@.contains_key(id));
            }
            match entities.take(id) {
                Some(mut e) => {
                    let pending = match e.components().get(ComponentKind::PhysicsBody) {
                        Some(Component::PhysicsBody(pb)) => match pb.rigid_body {
                            RigidBodyState::Pending(desc) => Some((pb.collider, desc)),
                            _ => None,
                        },
                        _ => None,
                    };
                    let tid = match e.components().get(ComponentKind::Transform) {
                        Some(Component::Transform(t)) => Some(t.id),
                        _ => None,
                    };
                    match (pending, tid) {
                        (Some((collider, desc)), Some(tid)) => {
                            match transforms.get(tid) {
                                Some(node) => {
                                    let pose = node.global();
                                    let h = world_insert_body(
                                        &mut world,
                                        &desc,
                                        pose.translation,
                                        pose.rotation,
                                    );
                                    // The handle is fresh from the insertion
                                    // just above, so the attach cannot miss;
                                    // the report is for stale handles.
                                    let _attached = world_attach_collider(&mut world, &collider, h);
                                    e.components_mut().add(
                                        Component::PhysicsBody(
                                            PhysicsBody {
                                                collider,
                                                rigid_body: RigidBodyState::Active(h),
                                            },
                                        ),
                                    );
                                },
                                None => {},
                            }
                        },
                        _ => {},
                    }
                    entities.put(e);
                    proof {
                        assert(entities@.dom() =~= old(entities)@.dom());
                        assert(ids@.no_duplicates());
                        assert forall|j: int| #![auto] i + 1 <= j < ids@.len() implies entities@[ids@[j]]
                            == old(entities)@[ids@[j]] by {
                            assert(ids@[j] != ids@[i as int]);
                        }
                        assert(seeded(old(entities)@[id], entities@[id], transforms@));
                        assert forall|j: int| #![auto] 0 <= j < i + 1 implies seeded(
                            old(entities)@[ids@[j]],
                            entities@[ids@[j]],
                            transforms@,
                        ) by {
                            if j < i as int {
                                assert(ids@[j] != ids@[i as int]);
                            }
                        }
                    }
                },
                None => {},
            }
            i += 1;
        }
        proof {
            assert forall|k: u64| #[trigger] old(entities)@.contains_key(k) implies seeded(
                old(entities)@[k],
                entities@[k],
                transforms@,
            ) by {
                assert(old(entities).order_spec().contains(k));
                let j = choose|j: int|
                    0 <= j < old(entities).order_spec().len() && old(entities).order_spec()[j] == k;
                assert(seeded(old(entities)@[ids@[j]], entities@[ids@[j]], transforms@));
            }
        }
        PhysicsEngine { world, gravity }
    }

    /// Looks up the world handle of the targeted entity's active body,
    /// or says exactly why the command must be dropped.
    fn lookup_active(entities: &EntityRegistry, id: u64) -> (r: Result<BodyHandle, PhysicsError>)
        ensures
            match r {
                Ok(h) => entities@.contains_key(id) && body_state_of(entities@[id]) == Some(
                    RigidBodyState::Active(h),
                ),
                Err(e) => match e {
                    PhysicsError::NoEntity(i) => i == id && !entities@.contains_key(id),
                    PhysicsError::NoBody(i) => i == id && entities@.contains_key(id)
                        && body_state_of(entities@[id]) is None,
                    PhysicsError::BodyPending(i) => i == id && entities@.contains_key(id)
                        && body_state_of(entities@[id]) matches Some(RigidBodyState::Pending(_)),
                    PhysicsError::BodyRemoved(i) => i == id && entities@.contains_key(id)
                        && body_state_of(entities@[id]) == Some(RigidBodyState::Removed),
                    _ => false,
                },
            },
    {
        match entities.get(id) {
            None => Err(PhysicsError::NoEntity(id)),
            Some(e) => match e.components().get(ComponentKind::PhysicsBody) {
                Some(Component::PhysicsBody(pb)) => match pb.rigid_body {
                    RigidBodyState::Active(h) => Ok(h),
                    RigidBodyState::Pending(_) => Err(PhysicsError::BodyPending(id)),
                    RigidBodyState::Removed => Err(PhysicsError::BodyRemoved(id)),
                },
                _ => Err(PhysicsError::NoBody(id)),
            },
        }
    }

    /// Applies one physics command: looks up the targeted entity's active
    /// body and mutates it.  A command against a missing entity, a
    /// missing body, or a body that is not `Active` is dropped with the
    /// matching error, and the engine is left untouched; enable/disable
    /// are not implemented and are refused explicitly.
    pub fn handle_command(
        &mut self,
        entities: &EntityRegistry,
        command: PhysicsCommand,
    ) -> (r: Result<(), PhysicsError>)
        ensures
            final(self).gravity == old(self).gravity,
            match lookup_outcome(entities@, command) {
                Some(e) => r == Err::<(), PhysicsError>(e) && *final(self) == *old(self),
                None => r is Ok || r == Err::<(), PhysicsError>(
                    PhysicsError::MissingRigidBody(command_target(command)),
                ),
            },
            match command {
                PhysicsCommand::Enable { .. } | PhysicsCommand::Disable { .. } => r == Err::<
                    (),
                    PhysicsError,
                >(PhysicsError::NotImplemented) && *final(self) == *old(self),
                PhysicsCommand::ApplyForce { id, .. }
                | PhysicsCommand::ApplyTorque { id, .. }
                | PhysicsCommand::ApplyImpulse { id, .. }
                | PhysicsCommand::ApplyTorqueImpulse { id, .. }
                | PhysicsCommand::SetLinearVelocity { id, .. }
                | PhysicsCommand::SetAngularVelocity { id, .. }
                | PhysicsCommand::SetPosition { id, .. }
                | PhysicsCommand::SetTranslation { id, .. }
                | PhysicsCommand::SetRotation { id, .. } => {
                    &&& (!entities@.contains_key(id) ==> r == Err::<(), PhysicsError>(
                        PhysicsError::NoEntity(id),
                    ) && *final(self) == *old(self))
                    &&& (entities@.contains_key(id) && body_state_of(entities@[id]) is None ==> r
                        == Err::<(), PhysicsError>(PhysicsError::NoBody(id)) && *final(self) == *old(
                        self,
                    ))
                    &&& ((entities@.contains_key(id) && (body_state_of(entities@[id]) matches Some(
                        RigidBodyState::Pending(_),
                    ))) ==> r == Err::<(), PhysicsError>(PhysicsError::BodyPending(id)) && *final(self)
                        == *old(self))
                    &&& (entities@.contains_key(id) && body_state_of(entities@[id]) == Some(
                        RigidBodyState::Removed,
                    ) ==> r == Err::<(), PhysicsError>(PhysicsError::BodyRemoved(id)) && *final(self)
                        == *old(self))
                    &&& ((entities@.contains_key(id) && (body_state_of(entities@[id]) matches Some(
                        RigidBodyState::Active(_),
                    ))) ==> (r is Ok || r == Err::<(), PhysicsError>(PhysicsError::MissingRigidBody(
                        id,
                    ))))
                },
            },
    {
        let id = match command {
            PhysicsCommand::Enable { .. } | PhysicsCommand::Disable { .. } => {
                return Err(PhysicsError::NotImplemented);
            },
            PhysicsCommand::ApplyForce { id, .. } => id,
            PhysicsCommand::ApplyTorque { id, .. } => id,
            PhysicsCommand::ApplyImpulse { id, .. } => id,
            PhysicsCommand::ApplyTorqueImpulse { id, .. } => id,
            PhysicsCommand::SetLinearVelocity { id, .. } => id,
            PhysicsCommand::SetAngularVelocity { id, .. } => id,
            PhysicsCommand::SetPosition { id, .. } => id,
            PhysicsCommand::SetTranslation { id, .. } => id,
            PhysicsCommand::SetRotation { id, .. } => id,
        };
        let handle = match Self::lookup_active(entities, id) {
            Ok(h) => h,
            Err(e) => {
                return Err(e);
            },
        };
        let found = match command {
            PhysicsCommand::ApplyForce { force, .. } => world_add_force(
                &mut self.world,
                handle,
                force,
            ),
            PhysicsCommand::ApplyTorque { torque, .. } => world_add_torque(
                &mut self.world,
                handle,
                torque,
            ),
            PhysicsCommand::ApplyImpulse { impulse, .. } => world_apply_impulse(
                &mut self.world,
                handle,
                impulse,
            ),
            PhysicsCommand::ApplyTorqueImpulse { impulse, .. } => world_apply_torque_impulse(
                &mut self.world,
                handle,
                impulse,
            ),
            PhysicsCommand::SetLinearVelocity { velocity, .. } => world_set_linvel(
                &mut self.world,
                handle,
                velocity,
            ),
            PhysicsCommand::SetAngularVelocity { velocity, .. } => world_set_angvel(
                &mut self.world,
                handle,
                velocity,
            ),
            PhysicsCommand::SetPosition { translation, rotation, .. } => world_set_position(
                &mut self.world,
                handle,
                translation,
                rotation,
            ),
            PhysicsCommand::SetTranslation { translation, .. } => world_set_translation(
                &mut self.world,
                handle,
                translation,
            ),
            PhysicsCommand::SetRotation { rotation, .. } => world_set_rotation(
                &mut self.world,
                handle,
                rotation,
            ),
            PhysicsCommand::Enable { .. } | PhysicsCommand::Disable { .. } => {
                return Err(PhysicsError::NotImplemented);
            },
        };
        if found {
            Ok(())
        } else {
            Err(PhysicsError::MissingRigidBody(id))
        }
    }

    /// One physics step: applies all queued commands (each failure is
    /// collected and the rest go on), advances the world by `delta`
    /// seconds (an IEEE 754 single-precision bit pattern), and publishes
    /// every active body's resolved pose back into its entity's
    /// transform.  Publication only moves local translation and rotation:
    /// the hierarchy, every scale, and the entity set itself stay put.
    pub fn step(
        &mut self,
        entities: &mut EntityRegistry,
        transforms: &mut TransformRegistry,
        commands: Vec<PhysicsCommand>,
        delta: u32,
    ) -> (errors: Vec<PhysicsError>)
        requires
            old(entities).wf(),
            old(transforms).wf(),
            delta < 0x7F80_0000,
        ensures
            final(self).gravity == old(self).gravity,
            errors@.len() <= commands@.len(),
            errors_match(old(entities)@, commands@, errors@),
            final(entities).wf(),
            final(entities)@ == old(entities)@,
            final(entities).order_spec() == old(entities).order_spec(),
            final(transforms).wf(),
            final(transforms).next_key() == old(transforms).next_key(),
            final(transforms)@.dom() == old(transforms)@.dom(),
            forall|t: u64| #[trigger] final(transforms)@.contains_key(t) ==> {
                &&& final(transforms)@[t].id == old(transforms)@[t].id
                &&& final(transforms)@[t].parent == old(transforms)@[t].parent
                &&& final(transforms)@[t].local.scale == old(transforms)@[t].local.scale
                &&& !published_target(old(entities)@, t) ==> final(transforms)@[t].local == old(
                    transforms,
                )@[t].local
                &&& exists|pos: Vec3, rot: Quat|
                    final(transforms)@[t].local == (BasicTransform {
                        translation: pos,
                        rotation: rot,
                        scale: old(transforms)@[t].local.scale,
                    })
            },
    {
        let mut errors: Vec<PhysicsError> = Vec::new();
        let mut ci: usize = 0;
        while ci < commands.len()
            invariant
                0 <= ci <= commands@.len(),
                errors@.len() <= ci,
                errors_match(old(entities)@, commands@.subrange(0, ci as int), errors@),
                old(entities).wf(),
                entities@ == old(entities)@,
                entities.order_spec() == old(entities).order_spec(),
                self.gravity == old(self).gravity,
            decreases commands@.len() - ci,
        {
            let ghost prefix = commands@.subrange(0, ci as int);
            let ghost c = commands@[ci as int];
            match self.handle_command(entities, commands[ci]) {
                Ok(()) => {
                    proof {
                        lemma_errors_match_snoc(
                            old(entities)@,
                            prefix,
                            errors@,
                            c,
                            Seq::<PhysicsError>::empty(),
                        );
                        assert(errors@ + Seq::<PhysicsError>::empty() =~= errors@);
                    }
                },
                Err(e) => {
                    let ghost before = errors@;
                    errors.push(e);
                    proof {
                        lemma_errors_match_snoc(old(entities)@, prefix, before, c, seq![e]);
                        assert(errors@ =~= before + seq![e]);
                    }
                },
            }
            proof {
                assert(commands@.subrange(0, ci as int + 1) =~= prefix.push(c));
            }
            ci += 1;
        }
        proof {
            assert(commands@.subrange(0, commands@.len() as int) =~= commands@);
        }
        let ghost all_errors = errors@;
        world_step(&mut self.world, delta);
        let ids = entities.ids();
        let mut i: usize = 0;
        while i < ids.len()
            invariant
                0 <= i <= ids@.len(),
                errors@ == all_errors,
                errors@.len() <= commands@.len(),
                errors_match(old(entities)@, commands@, errors@),
                old(entities).wf(),
                old(transforms).wf(),
                entities@ == old(entities)@,
                entities.order_spec() == old(entities).order_spec(),
                self.gravity == old(self).gravity,
                transforms.wf(),
                transforms.next_key() == old(transforms).next_key(),
                transforms@.dom() == old(transforms)@.dom(),
                forall|t: u64| #[trigger] transforms@.contains_key(t) ==> {
                    &&& transforms@[t].id == old(transforms)@[t].id
                    &&& transforms@[t].parent == old(transforms)@[t].parent
                    &&& transforms@[t].local.scale == old(transforms)@[t].local.scale
                    &&& !published_target(old(entities)@, t) ==> transforms@[t].local == old(
                        transforms,
                    )@[t].local
                },
            decreases ids@.len() - i,
        {
            let id = ids[i];
            match entities.get(id) {
                Some(e) => {
                    let active = match e.components().get(ComponentKind::PhysicsBody) {
                        Some(Component::PhysicsBody(pb)) => match pb.rigid_body {
                            RigidBodyState::Active(h) => Some(h),
                            _ => None,
                        },
                        _ => None,
                    };
                    let tid = match e.components().get(ComponentKind::Transform) {
                        Some(Component::Transform(t)) => Some(t.id),
                        _ => None,
                    };
                    match (active, tid) {
                        (Some(h), Some(tid)) => {
                            proof {
                                assert(entities@.contains_key(id));
                                assert(body_state_of(entities@[id]) == Some(
                                    RigidBodyState::Active(h),
                                ));
                                assert(transform_id_of(entities@[id]) == Some(tid));
                                assert(published_target(old(entities)@, tid.0));
                            }
                            match world_body_pose(&self.world, h) {
                                Some((pos, rot)) => {
                                    match transforms.get(tid) {
                                        Some(node) => {
                                            let l = node.local();
                                            let updated = BasicTransform {
                                                translation: pos,
                                                rotation: rot,
                                                scale: l.scale,
                                            };
                                            transforms.set(tid, updated);
                                            proof {
                                                assert(transforms@.dom() =~= old(
                                                    transforms,
                                                )@.dom());
                                            }
                                        },
                                        None => {},
                                    }
                                },
                                None => {},
                            }
                        },
                        _ => {},
                    }
                },
                None => {},
            }
            i += 1;
        }
        proof {
            assert forall|t: u64| #[trigger] transforms@.contains_key(t) implies (exists|
                pos: Vec3,
                rot: Quat,
            |
                transforms@[t].local == (BasicTransform {
                    translation: pos,
                    rotation: rot,
                    scale: old(transforms)@[t].local.scale,
                })) by {
                let pos = transforms@[t].local.translation;
                let rot = transforms@[t].local.rotation;
                assert(transforms@[t].local == (BasicTransform {
                    translation: pos,
                    rotation: rot,
                    scale: old(transforms)@[t].local.scale,
                }));
            }
        }
        errors
    }
}

} // verus!
