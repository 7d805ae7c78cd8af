//! The orchestrator: ties the registries, the message bus and the physics
//! bridge together once per tick.  It drains every subsystem's outgoing
//! queue in a fixed order, dispatches each message, and turns the effects
//! that belong to external collaborators (the renderer and the windowing
//! layer) into an ordered action list for the caller to perform.

use std::collections::HashMap;

use vstd::prelude::*;

use crate::entity::{input_applied, Entity, EntityRegistry};
use crate::event::EventHandler;
use crate::messages::{
    EngineCommand, EventHandlerCommand, Message, MessageCommand, MessageQueue, WindowEvent,
};
use crate::math::Vec3;
use crate::physics::{seeded, PhysicsCommand, PhysicsEngine, PhysicsError};
use crate::rendering::{RendererCommand, RendererType};
use crate::transform::TransformRegistry;

verus! {

broadcast use vstd::std_specs::hash::group_hash_axioms;

/// The bit pattern of standard gravity, -9.81, as an IEEE 754
/// single-precision number; the world pulls along the negative y axis.
pub const GRAVITY_Y_BITS: u32 = 0xC11C_F5C3;

/// What the orchestrator knows of one live window.
#[derive(Clone, Copy, Debug, PartialEq, Eq, Structural, Hash)]
pub struct WindowState {
    pub width: u32,
    pub height: u32,
}

/// An effect that belongs to an external collaborator; the caller
/// performs the actions of one tick in order.
#[derive(Clone, Copy, Debug, PartialEq, Eq, Structural, Hash)]
pub enum EngineAction {
    /// Render the window with this id.
    Render(u64),
    /// Resize the viewport of the window with this id.
    Resize(u64, u32, u32),
    /// Apply a new scale factor (an IEEE 754 double-precision bit
    /// pattern) to the window with this id.
    ScaleChange(u64, u64),
    /// Close the window with this id.
    Close(u64),
    /// Drain the message queues again, to flush anything queued
    /// mid-frame.
    DrainAgain,
    /// Ask the window with this id for another redraw.
    RequestRedraw(u64),
}

/// Why one message could not be dispatched.  The failure is logged by the
/// caller and never aborts the remaining queue.
#[derive(Clone, Copy, Debug, PartialEq, Eq, Structural, Hash)]
pub enum EngineError {
    /// The message targets a window the orchestrator does not know.
    WindowNotFound(u64),
    /// The message carries an event of the wrong shape for its command.
    InvalidEvent,
}

/// The orchestrator.
pub struct Engine {
    pub renderer_type: RendererType,
    /// The renderer's outgoing message queue; the renderer itself is an
    /// external collaborator.
    pub renderer: MessageQueue,
    pub event_handler: EventHandler,
    pub physics_engine: PhysicsEngine,
    pub windows: HashMap<u64, WindowState>,
    pub default_camera_id: u64,
    pub objects: EntityRegistry,
    pub transforms: TransformRegistry,
    /// Physics commands routed by the bus and not yet handed to a step.
    pub physics_outbox: Vec<PhysicsCommand>,
}

/// The messages of every entity, concatenated in registry order.
pub open spec fn concat_entity_messages(m: Map<u64, Entity>, order: Seq<u64>) -> Seq<Message>
    decreases order.len(),
{
    if order.len() == 0 {
        Seq::empty()
    } else {
        m[order[0]].messages@ + concat_entity_messages(m, order.drop_first())
    }
}

/// Peeling the last entity off the concatenation.
proof fn lemma_concat_snoc(m: Map<u64, Entity>, order: Seq<u64>)
    requires
        order.len() > 0,
    ensures
        concat_entity_messages(m, order) == concat_entity_messages(m, order.drop_last())
            + m[order.last()].messages@,
    decreases order.len(),
{
    if order.len() == 1 {
        assert(order.drop_last() =~= Seq::<u64>::empty());
        assert(concat_entity_messages(m, order.drop_first()) =~= Seq::<Message>::empty());
        assert(concat_entity_messages(m, order) =~= concat_entity_messages(m, order.drop_last())
            + m[order.last()].messages@);
    } else {
        lemma_concat_snoc(m, order.drop_first());
        assert(order.drop_first().drop_last() =~= order.drop_last().drop_first());
        assert(order.drop_first().last() == order.last());
        assert(order.drop_last()[0] == order[0]);
        assert(concat_entity_messages(m, order) == m[order[0]].messages@
            + concat_entity_messages(m, order.drop_first()));
        assert(concat_entity_messages(m, order.drop_last()) == m[order[0]].messages@
            + concat_entity_messages(m, order.drop_last().drop_first()));
        assert(concat_entity_messages(m, order) =~= concat_entity_messages(m, order.drop_last())
            + m[order.last()].messages@);
    }
}

/// What draining does to the entity registry contents: every entity's
/// outgoing queue is emptied and nothing else about any entity moves.
pub open spec fn queues_cleared(pre: Map<u64, Entity>, post: Map<u64, Entity>) -> bool {
    &&& post.dom() == pre.dom()
    &&& forall|k: u64| #[trigger] pre.contains_key(k) ==> {
        &&& post[k].messages@ == Seq::<Message>::empty()
        &&& post[k].id == pre[k].id
        &&& post[k].kind == pre[k].kind
        &&& post[k].components == pre[k].components
        &&& post[k].model == pre[k].model
        &&& post[k].inputs == pre[k].inputs
    }
}

/// The transition one message dispatch makes on the orchestrator's
/// dispatchable state — the window table, the entity registry contents,
/// and the physics outbox — together with the actions it emits and the
/// error it reports.  This is exactly the contract of
/// [`Engine::handle_message`], stated over plain state so a whole drain
/// cycle can be described as its fold.
pub open spec fn dispatch_step(
    pre_windows: Map<u64, WindowState>,
    pre_objects: Map<u64, Entity>,
    pre_outbox: Seq<PhysicsCommand>,
    msg: Message,
    post_windows: Map<u64, WindowState>,
    post_objects: Map<u64, Entity>,
    post_outbox: Seq<PhysicsCommand>,
    actions: Seq<EngineAction>,
    error: Option<EngineError>,
) -> bool {
    match msg.context.command {
        MessageCommand::RendererCommand(rc) => {
            &&& post_objects == pre_objects
            &&& post_outbox == pre_outbox
            &&& match rc {
                RendererCommand::Render(wid) => {
                    &&& post_windows == pre_windows
                    &&& if pre_windows.contains_key(wid) {
                        actions == seq![EngineAction::Render(wid)] && error is None
                    } else {
                        actions == Seq::<EngineAction>::empty() && error == Some(
                            EngineError::WindowNotFound(wid),
                        )
                    }
                },
                RendererCommand::HandleResize(wid, ev) => match ev {
                    WindowEvent::Resized { width, height } => {
                        if pre_windows.contains_key(wid) {
                            &&& post_windows == pre_windows.insert(
                                wid,
                                (WindowState { width, height }),
                            )
                            &&& actions == seq![EngineAction::Resize(wid, width, height)]
                            &&& error is None
                        } else {
                            &&& post_windows == pre_windows
                            &&& actions == Seq::<EngineAction>::empty()
                            &&& error == Some(EngineError::WindowNotFound(wid))
                        }
                    },
                    _ => post_windows == pre_windows && actions == Seq::<EngineAction>::empty()
                        && error == Some(EngineError::InvalidEvent),
                },
                RendererCommand::HandleScaleChange(wid, ev) => {
                    &&& post_windows == pre_windows
                    &&& match ev {
                        WindowEvent::ScaleFactorChanged { scale } => {
                            if pre_windows.contains_key(wid) {
                                actions == seq![EngineAction::ScaleChange(wid, scale)]
                                    && error is None
                            } else {
                                actions == Seq::<EngineAction>::empty() && error == Some(
                                    EngineError::WindowNotFound(wid),
                                )
                            }
                        },
                        _ => actions == Seq::<EngineAction>::empty() && error == Some(
                            EngineError::InvalidEvent,
                        ),
                    }
                },
                RendererCommand::HandleClose(wid, ev) => {
                    &&& post_windows == pre_windows
                    &&& match ev {
                        WindowEvent::CloseRequested => {
                            if pre_windows.contains_key(wid) {
                                actions == seq![EngineAction::Close(wid)] && error is None
                            } else {
                                actions == Seq::<EngineAction>::empty() && error == Some(
                                    EngineError::WindowNotFound(wid),
                                )
                            }
                        },
                        _ => actions == Seq::<EngineAction>::empty() && error == Some(
                            EngineError::InvalidEvent,
                        ),
                    }
                },
            }
        },
        MessageCommand::EventHandlerCommand(ec) => {
            &&& post_windows == pre_windows
            &&& post_outbox == pre_outbox
            &&& match ec {
                EventHandlerCommand::WindowEvent(_, ev) => {
                    &&& actions == Seq::<EngineAction>::empty()
                    &&& error is None
                    &&& post_objects.dom() == pre_objects.dom()
                    &&& forall|k: u64| #[trigger] pre_objects.contains_key(k) ==> input_applied(
                        pre_objects[k],
                        post_objects[k],
                        ev,
                    )
                },
            }
        },
        MessageCommand::EngineCommand(ec) => {
            &&& post_windows == pre_windows
            &&& post_objects == pre_objects
            &&& post_outbox == pre_outbox
            &&& match ec {
                EngineCommand::RedrawComplete(wid) => {
                    if pre_windows.contains_key(wid) {
                        actions == seq![EngineAction::DrainAgain, EngineAction::RequestRedraw(wid)]
                            && error is None
                    } else {
                        actions == Seq::<EngineAction>::empty() && error == Some(
                            EngineError::WindowNotFound(wid),
                        )
                    }
                },
            }
        },
        MessageCommand::PhysicsCommand(pc) => {
            &&& post_windows == pre_windows
            &&& post_objects == pre_objects
            &&& post_outbox == pre_outbox.push(pc)
            &&& actions == Seq::<EngineAction>::empty()
            &&& error is None
        },
    }
}

/// A whole drain cycle as the fold of [`dispatch_step`] over a message
/// sequence: the messages are dispatched one by one, in order; each
/// message's actions are appended in order, each failing message
/// contributes its error and dispatch goes on with the rest.
pub open spec fn dispatched(
    pre_windows: Map<u64, WindowState>,
    pre_objects: Map<u64, Entity>,
    pre_outbox: Seq<PhysicsCommand>,
    msgs: Seq<Message>,
    post_windows: Map<u64, WindowState>,
    post_objects: Map<u64, Entity>,
    post_outbox: Seq<PhysicsCommand>,
    actions: Seq<EngineAction>,
    errors: Seq<EngineError>,
) -> bool
    decreases msgs.len(),
{
    if msgs.len() == 0 {
        &&& post_windows == pre_windows
        &&& post_objects == pre_objects
        &&& post_outbox == pre_outbox
        &&& actions.len() == 0
        &&& errors.len() == 0
    } else {
        exists|
            mid_windows: Map<u64, WindowState>,
            mid_objects: Map<u64, Entity>,
            mid_outbox: Seq<PhysicsCommand>,
            first_actions: Seq<EngineAction>,
            first_error: Option<EngineError>,
        |
            {
                &&& #[trigger] dispatch_step(
                    pre_windows,
                    pre_objects,
                    pre_outbox,
                    msgs[0],
                    mid_windows,
                    mid_objects,
                    mid_outbox,
                    first_actions,
                    first_error,
                )
                &&& first_actions.len() <= actions.len()
                &&& actions.take(first_actions.len() as int) == first_actions
                &&& match first_error {
                    Some(e) => errors.len() > 0 && errors[0] == e && dispatched(
                        mid_windows,
                        mid_objects,
                        mid_outbox,
                        msgs.drop_first(),
                        post_windows,
                        post_objects,
                        post_outbox,
                        actions.skip(first_actions.len() as int),
                        errors.drop_first(),
                    ),
                    None => dispatched(
                        mid_windows,
                        mid_objects,
                        mid_outbox,
                        msgs.drop_first(),
                        post_windows,
                        post_objects,
                        post_outbox,
                        actions.skip(first_actions.len() as int),
                        errors,
                    ),
                }
            }
    }
}

/// Appending one dispatched message to a fold keeps it a fold.
proof fn lemma_dispatched_snoc(
    w0: Map<u64, WindowState>,
    o0: Map<u64, Entity>,
    b0: Seq<PhysicsCommand>,
    msgs: Seq<Message>,
    w1: Map<u64, WindowState>,
    o1: Map<u64, Entity>,
    b1: Seq<PhysicsCommand>,
    actions: Seq<EngineAction>,
    errors: Seq<EngineError>,
    m: Message,
    w2: Map<u64, WindowState>,
    o2: Map<u64, Entity>,
    b2: Seq<PhysicsCommand>,
    a1: Seq<EngineAction>,
    e1: Option<EngineError>,
)
    requires
        dispatched(w0, o0, b0, msgs, w1, o1, b1, actions, errors),
        dispatch_step(w1, o1, b1, m, w2, o2, b2, a1, e1),
    ensures
        dispatched(
            w0,
            o0,
            b0,
            msgs.push(m),
            w2,
            o2,
            b2,
            actions + a1,
            errors + (match e1 {
                Some(e) => seq![e],
                None => Seq::<EngineError>::empty(),
            }),
        ),
    decreases msgs.len(),
{
    let ms = msgs.push(m);
    let acts = actions + a1;
    let errs = errors + (match e1 {
        Some(e) => seq![e],
        None => Seq::<EngineError>::empty(),
    });
    if msgs.len() == 0 {
        assert(ms[0] == m);
        assert(ms.drop_first() =~= Seq::<Message>::empty());
        assert(acts =~= a1);
        assert(dispatch_step(w0, o0, b0, ms[0], w2, o2, b2, a1, e1));
        assert(acts.take(a1.len() as int) =~= a1);
        assert(acts.skip(a1.len() as int) =~= Seq::<EngineAction>::empty());
        match e1 {
            Some(e) => {
                assert(errs =~= seq![e]);
                assert(errs.drop_first() =~= Seq::<EngineError>::empty());
                assert(dispatched(
                    w2,
                    o2,
                    b2,
                    ms.drop_first(),
                    w2,
                    o2,
                    b2,
                    acts.skip(a1.len() as int),
                    errs.drop_first(),
                ));
            },
            None => {
                assert(errs =~= errors);
                assert(errs.len() == 0);
                assert(dispatched(
                    w2,
                    o2,
                    b2,
                    ms.drop_first(),
                    w2,
                    o2,
                    b2,
                    acts.skip(a1.len() as int),
                    errs,
                ));
            },
        }
    } else {
        let (mw, mo, mb, fa, fe) = choose|
            mw: Map<u64, WindowState>,
            mo: Map<u64, Entity>,
            mb: Seq<PhysicsCommand>,
            fa: Seq<EngineAction>,
            fe: Option<EngineError>,
        |
            {
                &&& #[trigger] dispatch_step(w0, o0, b0, msgs[0], mw, mo, mb, fa, fe)
                &&& fa.len() <= actions.len()
                &&& actions.take(fa.len() as int) == fa
                &&& match fe {
                    Some(e) => errors.len() > 0 && errors[0] == e && dispatched(
                        mw,
                        mo,
                        mb,
                        msgs.drop_first(),
                        w1,
                        o1,
                        b1,
                        actions.skip(fa.len() as int),
                        errors.drop_first(),
                    ),
                    None => dispatched(
                        mw,
                        mo,
                        mb,
                        msgs.drop_first(),
                        w1,
                        o1,
                        b1,
                        actions.skip(fa.len() as int),
                        errors,
                    ),
                }
            };
        assert(ms[0] == msgs[0]);
        assert(ms.drop_first() =~= msgs.drop_first().push(m));
        assert(acts.take(fa.len() as int) =~= fa);
        assert(acts.skip(fa.len() as int) =~= actions.skip(fa.len() as int) + a1);
        match fe {
            Some(e) => {
                lemma_dispatched_snoc(
                    mw,
                    mo,
                    mb,
                    msgs.drop_first(),
                    w1,
                    o1,
                    b1,
                    actions.skip(fa.len() as int),
                    errors.drop_first(),
                    m,
                    w2,
                    o2,
                    b2,
                    a1,
                    e1,
                );
                assert(errs[0] == errors[0]);
                assert(errs.drop_first() =~= errors.drop_first() + (match e1 {
                    Some(x) => seq![x],
                    None => Seq::<EngineError>::empty(),
                }));
                assert(dispatch_step(w0, o0, b0, ms[0], mw, mo, mb, fa, Some(e)));
                assert(dispatched(w0, o0, b0, ms, w2, o2, b2, acts, errs));
            },
            None => {
                lemma_dispatched_snoc(
                    mw,
                    mo,
                    mb,
                    msgs.drop_first(),
                    w1,
                    o1,
                    b1,
                    actions.skip(fa.len() as int),
                    errors,
                    m,
                    w2,
                    o2,
                    b2,
                    a1,
                    e1,
                );
                assert(dispatch_step(w0, o0, b0, ms[0], mw, mo, mb, fa, None::<EngineError>));
                assert(dispatched(w0, o0, b0, ms, w2, o2, b2, acts, errs));
            },
        }
    }
}

impl Engine {
    /// Validity of the orchestrator: both registries are well-formed.
    pub open spec fn wf(self) -> bool {
        &&& self.objects.wf()
        &&& self.transforms.wf()
    }

    /// Wires the orchestrator together and seeds the physics world from
    /// the given entities (pending bodies become active at their current
    /// resolved transforms), under standard gravity.
    pub fn new(
        renderer_type: RendererType,
        entities: EntityRegistry,
        transforms: TransformRegistry,
        default_camera_id: u64,
    ) -> (r: Engine)
        requires
            entities.wf(),
            transforms.wf(),
        ensures
            r.wf(),
            r.renderer_type == renderer_type,
            r.default_camera_id == default_camera_id,
            r.transforms == transforms,
            r.windows@ == Map::<u64, WindowState>::empty(),
            r.renderer.messages@ == Seq::<Message>::empty(),
            r.event_handler.messages@ == Seq::<Message>::empty(),
            r.physics_outbox@ == Seq::<PhysicsCommand>::empty(),
            r.physics_engine.gravity == (Vec3 { x: 0, y: GRAVITY_Y_BITS, z: 0 }),
            r.objects.order_spec() == entities.order_spec(),
            r.objects@.dom() == entities@.dom(),
            forall|k: u64| #[trigger] entities@.contains_key(k) ==> seeded(
                entities@[k],
                r.objects@[k],
                transforms@,
            ),
    {
        let gravity = Vec3 { x: 0, y: GRAVITY_Y_BITS, z: 0 };
        let mut entities = entities;
        let physics_engine = PhysicsEngine::new(gravity, &mut entities, &transforms);
        Engine {
            renderer_type,
            renderer: MessageQueue::new(),
            event_handler: EventHandler::new(),
            physics_engine,
            windows: HashMap::new(),
            default_camera_id,
            objects: entities,
            transforms,
            physics_outbox: Vec::new(),
        }
    }

    /// Replaces the entity registry the orchestrator works over.
    pub fn set_objects(&mut self, objects: EntityRegistry)
        requires
            old(self).transforms.wf(),
            objects.wf(),
        ensures
            final(self).wf(),
            final(self).objects == objects,
            final(self).renderer == old(self).renderer,
            final(self).event_handler == old(self).event_handler,
            final(self).transforms == old(self).transforms,
            final(self).windows == old(self).windows,
            final(self).physics_outbox == old(self).physics_outbox,
            final(self).default_camera_id == old(self).default_camera_id,
            final(self).renderer_type == old(self).renderer_type,
            final(self).physics_engine.gravity == old(self).physics_engine.gravity,
    {
        self.objects = objects;
    }

    /// Registers a window with the orchestrator, replacing any prior
    /// state under the same id.
    pub fn add_window(&mut self, id: u64, width: u32, height: u32)
        ensures
            final(self).windows@ == old(self).windows@.insert(id, (WindowState { width, height })),
            final(self).renderer == old(self).renderer,
            final(self).event_handler == old(self).event_handler,
            final(self).objects == old(self).objects,
            final(self).transforms == old(self).transforms,
            final(self).physics_outbox == old(self).physics_outbox,
            final(self).default_camera_id == old(self).default_camera_id,
            final(self).renderer_type == old(self).renderer_type,
            final(self).physics_engine.gravity == old(self).physics_engine.gravity,
    {
        self.windows.insert(id, WindowState { width, height });
    }

    /// The live size of a window, if the orchestrator knows it.
    pub fn window_size(&self, id: u64) -> (r: Option<WindowState>)
        ensures
            r is Some <==> self.windows@.contains_key(id),
            r matches Some(w) ==> w == self.windows@[id],
    {
        match self.windows.get(&id) {
            Some(w) => Some(*w),
            None => None,
        }
    }

    /// Hands every physics command the bus has routed since the last call
    /// to the caller, emptying the outbox.
    pub fn take_physics_commands(&mut self) -> (r: Vec<PhysicsCommand>)
        ensures
            r@ == old(self).physics_outbox@,
            final(self).physics_outbox@ == Seq::<PhysicsCommand>::empty(),
            final(self).renderer == old(self).renderer,
            final(self).event_handler == old(self).event_handler,
            final(self).objects == old(self).objects,
            final(self).transforms == old(self).transforms,
            final(self).windows == old(self).windows,
            final(self).default_camera_id == old(self).default_camera_id,
            final(self).renderer_type == old(self).renderer_type,
            final(self).physics_engine.gravity == old(self).physics_engine.gravity,
    {
        let mut out: Vec<PhysicsCommand> = Vec::new();
        std::mem::swap(&mut out, &mut self.physics_outbox);
        out
    }

    /// Advances the physics bridge by one step over this engine's own
    /// registries, feeding it everything in the outbox; `delta` is the
    /// timestep in seconds, as an IEEE 754 single-precision bit pattern
    /// (the bound admits exactly the finite, non-negative timesteps).
    pub fn step_physics(&mut self, delta: u32) -> (errors: Vec<PhysicsError>)
        requires
            old(self).wf(),
            delta < 0x7F80_0000,
        ensures
            final(self).wf(),
            final(self).physics_outbox@ == Seq::<PhysicsCommand>::empty(),
            errors@.len() <= old(self).physics_outbox@.len(),
            crate::physics::errors_match(old(self).objects@, old(self).physics_outbox@, errors@),
            final(self).objects@ == old(self).objects@,
            final(self).objects.order_spec() == old(self).objects.order_spec(),
            final(self).transforms.next_key() == old(self).transforms.next_key(),
            final(self).transforms@.dom() == old(self).transforms@.dom(),
            forall|t: u64| #[trigger] final(self).transforms@.contains_key(t) ==> {
                &&& final(self).transforms@[t].id == old(self).transforms@[t].id
                &&& final(self).transforms@[t].parent == old(self).transforms@[t].parent
                &&& final(self).transforms@[t].local.scale == old(self).transforms@[t].local.scale
                &&& !crate::physics::published_target(old(self).objects@, t)
                    ==> final(self).transforms@[t].local == old(self).transforms@[t].local
            },
            final(self).renderer == old(self).renderer,
            final(self).event_handler == old(self).event_handler,
            final(self).windows == old(self).windows,
            final(self).default_camera_id == old(self).default_camera_id,
            final(self).renderer_type == old(self).renderer_type,
            final(self).physics_engine.gravity == old(self).physics_engine.gravity,
    {
        let commands = self.take_physics_commands();
        self.physics_engine.step(&mut self.objects, &mut self.transforms, commands, delta)
    }

    /// Dispatches one message by destination-specific payload.  A renderer
    /// or engine command against an unknown window id is an error, not a
    /// crash; an event-handler command is broadcast to every live entity;
    /// a physics command is forwarded to the outbox and never blocks.
    /// The returned actions are performed by the caller, in order.
    pub fn handle_message(&mut self, msg: Message) -> (r: Result<Vec<EngineAction>, EngineError>)
        requires
            old(self).wf(),
        ensures
            final(self).wf(),
            final(self).renderer == old(self).renderer,
            final(self).event_handler == old(self).event_handler,
            final(self).transforms == old(self).transforms,
            final(self).default_camera_id == old(self).default_camera_id,
            final(self).renderer_type == old(self).renderer_type,
            final(self).physics_engine.gravity == old(self).physics_engine.gravity,
            final(self).objects.order_spec() == old(self).objects.order_spec(),
            final(self).objects@.dom() == old(self).objects@.dom(),
            dispatch_step(
                old(self).windows@,
                old(self).objects@,
                old(self).physics_outbox@,
                msg,
                final(self).windows@,
                final(self).objects@,
                final(self).physics_outbox@,
                (match r {
                    Ok(a) => a@,
                    Err(_) => Seq::<EngineAction>::empty(),
                }),
                (match r {
                    Ok(_) => None::<EngineError>,
                    Err(e) => Some(e),
                }),
            ),
            match msg.context.command {
                MessageCommand::RendererCommand(rc) => {
                    &&& final(self).objects == old(self).objects
                    &&& final(self).physics_outbox == old(self).physics_outbox
                    &&& match rc {
                        RendererCommand::Render(wid) => {
                            &&& final(self).windows == old(self).windows
                            &&& if old(self).windows@.contains_key(wid) {
                                r matches Ok(a) && a@ == seq![EngineAction::Render(wid)]
                            } else {
                                r == Err::<Vec<EngineAction>, EngineError>(
                                    EngineError::WindowNotFound(wid),
                                )
                            }
                        },
                        RendererCommand::HandleResize(wid, ev) => match ev {
                            WindowEvent::Resized { width, height } => {
                                if old(self).windows@.contains_key(wid) {
                                    &&& final(self).windows@ == old(self).windows@.insert(
                                        wid,
                                        (WindowState { width, height }),
                                    )
                                    &&& r matches Ok(a) && a@ == seq![
                                        EngineAction::Resize(wid, width, height),
                                    ]
                                } else {
                                    &&& final(self).windows == old(self).windows
                                    &&& r == Err::<Vec<EngineAction>, EngineError>(
                                        EngineError::WindowNotFound(wid),
                                    )
                                }
                            },
                            _ => final(self).windows == old(self).windows && r == Err::<
                                Vec<EngineAction>,
                                EngineError,
                            >(EngineError::InvalidEvent),
                        },
                        RendererCommand::HandleScaleChange(wid, ev) => {
                            &&& final(self).windows == old(self).windows
                            &&& match ev {
                                WindowEvent::ScaleFactorChanged { scale } => {
                                    if old(self).windows@.contains_key(wid) {
                                        r matches Ok(a) && a@ == seq![
                                            EngineAction::ScaleChange(wid, scale),
                                        ]
                                    } else {
                                        r == Err::<Vec<EngineAction>, EngineError>(
                                            EngineError::WindowNotFound(wid),
                                        )
                                    }
                                },
                                _ => r == Err::<Vec<EngineAction>, EngineError>(
                                    EngineError::InvalidEvent,
                                ),
                            }
                        },
                        RendererCommand::HandleClose(wid, ev) => {
                            &&& final(self).windows == old(self).windows
                            &&& match ev {
                                WindowEvent::CloseRequested => {
                                    if old(self).windows@.contains_key(wid) {
                                        r matches Ok(a) && a@ == seq![EngineAction::Close(wid)]
                                    } else {
                                        r == Err::<Vec<EngineAction>, EngineError>(
                                            EngineError::WindowNotFound(wid),
                                        )
                                    }
                                },
                                _ => r == Err::<Vec<EngineAction>, EngineError>(
                                    EngineError::InvalidEvent,
                                ),
                            }
                        },
                    }
                },
                MessageCommand::EventHandlerCommand(ec) => {
                    &&& final(self).windows == old(self).windows
                    &&& final(self).physics_outbox == old(self).physics_outbox
                    &&& match ec {
                        EventHandlerCommand::WindowEvent(_, ev) => {
                            &&& r matches Ok(a) && a@ == Seq::<EngineAction>::empty()
                            &&& forall|k: u64| #[trigger] old(self).objects@.contains_key(k)
                                ==> input_applied(
                                old(self).objects@[k],
                                final(self).objects@[k],
                                ev,
                            )
                        },
                    }
                },
                MessageCommand::EngineCommand(ec) => {
                    &&& final(self).objects == old(self).objects
                    &&& final(self).physics_outbox == old(self).physics_outbox
                    &&& final(self).windows == old(self).windows
                    &&& match ec {
                        EngineCommand::RedrawComplete(wid) => {
                            if old(self).windows@.contains_key(wid) {
                                r matches Ok(a) && a@ == seq![
                                    EngineAction::DrainAgain,
                                    EngineAction::RequestRedraw(wid),
                                ]
                            } else {
                                r == Err::<Vec<EngineAction>, EngineError>(
                                    EngineError::WindowNotFound(wid),
                                )
                            }
                        },
                    }
                },
                MessageCommand::PhysicsCommand(pc) => {
                    &&& final(self).objects == old(self).objects
                    &&& final(self).windows == old(self).windows
                    &&& final(self).physics_outbox@ == old(self).physics_outbox@.push(pc)
                    &&& r matches Ok(a) && a@ == Seq::<EngineAction>::empty()
                },
            },
    {
        match msg.context.command {
            MessageCommand::RendererCommand(rc) => match rc {
                RendererCommand::Render(wid) => {
                    if self.windows.contains_key(&wid) {
                        let mut actions: Vec<EngineAction> = Vec::new();
                        actions.push(EngineAction::Render(wid));
                        proof {
                            assert(actions@ =~= seq![EngineAction::Render(wid)]);
                        }
                        Ok(actions)
                    } else {
                        Err(EngineError::WindowNotFound(wid))
                    }
                },
                RendererCommand::HandleResize(wid, ev) => match ev {
                    WindowEvent::Resized { width, height } => {
                        if self.windows.contains_key(&wid) {
                            self.windows.insert(wid, WindowState { width, height });
                            let mut actions: Vec<EngineAction> = Vec::new();
                            actions.push(EngineAction::Resize(wid, width, height));
                            proof {
                                assert(actions@ =~= seq![EngineAction::Resize(wid, width, height)]);
                            }
                            Ok(actions)
                        } else {
                            Err(EngineError::WindowNotFound(wid))
                        }
                    },
                    _ => Err(EngineError::InvalidEvent),
                },
                RendererCommand::HandleScaleChange(wid, ev) => match ev {
                    WindowEvent::ScaleFactorChanged { scale } => {
                        if self.windows.contains_key(&wid) {
                            let mut actions: Vec<EngineAction> = Vec::new();
                            actions.push(EngineAction::ScaleChange(wid, scale));
                            proof {
                                assert(actions@ =~= seq![EngineAction::ScaleChange(wid, scale)]);
                            }
                            Ok(actions)
                        } else {
                            Err(EngineError::WindowNotFound(wid))
                        }
                    },
                    _ => Err(EngineError::InvalidEvent),
                },
                RendererCommand::HandleClose(wid, ev) => match ev {
                    WindowEvent::CloseRequested => {
                        if self.windows.contains_key(&wid) {
                            let mut actions: Vec<EngineAction> = Vec::new();
                            actions.push(EngineAction::Close(wid));
                            proof {
                                assert(actions@ =~= seq![EngineAction::Close(wid)]);
                            }
                            Ok(actions)
                        } else {
                            Err(EngineError::WindowNotFound(wid))
                        }
                    },
                    _ => Err(EngineError::InvalidEvent),
                },
            },
            MessageCommand::EventHandlerCommand(ec) => match ec {
                EventHandlerCommand::WindowEvent(wid, ev) => {
                    let handler = EventHandler::new();
                    handler.send_event(&mut self.objects, wid, &ev);
                    Ok(Vec::new())
                },
            },
            MessageCommand::EngineCommand(ec) => match ec {
                EngineCommand::RedrawComplete(wid) => {
                    if self.windows.contains_key(&wid) {
                        let mut actions: Vec<EngineAction> = Vec::new();
                        actions.push(EngineAction::DrainAgain);
                        actions.push(EngineAction::RequestRedraw(wid));
                        proof {
                            assert(actions@ =~= seq![
                                EngineAction::DrainAgain,
                                EngineAction::RequestRedraw(wid),
                            ]);
                        }
                        Ok(actions)
                    } else {
                        Err(EngineError::WindowNotFound(wid))
                    }
                },
            },
            MessageCommand::PhysicsCommand(pc) => {
                self.physics_outbox.push(pc);
                Ok(Vec::new())
            },
        }
    }

    /// Empties every subsystem queue — the event handler's, the
    /// renderer's, then each entity's, in registry order — and returns
    /// the drained messages as one sequence in exactly that order.
    /// Messages produced during the following dispatch accumulate for the
    /// next drain cycle.
    pub fn drain_queues(&mut self) -> (drained: Vec<Message>)
        requires
            old(self).wf(),
        ensures
            final(self).wf(),
            drained@ == old(self).event_handler.messages@ + old(self).renderer.messages@
                + concat_entity_messages(old(self).objects@, old(self).objects.order_spec()),
            final(self).event_handler.messages@ == Seq::<Message>::empty(),
            final(self).renderer.messages@ == Seq::<Message>::empty(),
            final(self).objects.order_spec() == old(self).objects.order_spec(),
            final(self).objects@.dom() == old(self).objects@.dom(),
            queues_cleared(old(self).objects@, final(self).objects@),
            final(self).windows == old(self).windows,
            final(self).transforms == old(self).transforms,
            final(self).physics_outbox == old(self).physics_outbox,
            final(self).default_camera_id == old(self).default_camera_id,
            final(self).renderer_type == old(self).renderer_type,
            final(self).physics_engine.gravity == old(self).physics_engine.gravity,
    {
        let mut drained: Vec<Message> = Vec::new();
        {
            let q = self.event_handler.get_messages_mut();
            drained.append(q);
        }
        {
            let q = self.renderer.get_messages_mut();
            drained.append(q);
        }
        let ids = self.objects.ids();
        let ghost base = drained@;
        let ghost orig = self.objects@;
        let mut i: usize = 0;
        while i < ids.len()
            invariant
                0 <= i <= ids@.len(),
                ids@ == old(self).objects.order_spec(),
                old(self).objects.wf(),
                old(self).transforms.wf(),
                orig == old(self).objects@,
                self.objects.order_spec() == old(self).objects.order_spec(),
                self.objects@.dom() == old(self).objects@.dom(),
                drained@ == base + concat_entity_messages(orig, ids@.subrange(0, i as int)),
                forall|j: int| #![auto] i <= j < ids@.len() ==> self.objects@[ids@[j]]
                    == orig[ids@[j]],
                forall|j: int| #![auto] 0 <= j < i ==> {
                    &&& self.objects@[ids@[j]].messages@ == Seq::<Message>::empty()
                    &&& self.objects@[ids@[j]].id == orig[ids@[j]].id
                    &&& self.objects@[ids@[j]].kind == orig[ids@[j]].kind
                    &&& self.objects@[ids@[j]].components == orig[ids@[j]].components
                    &&& self.objects@[ids@[j]].model == orig[ids@[j]].model
                    &&& self.objects@[ids@[j]].inputs == orig[ids@[j]].inputs
                },
                forall|k: u64| #[trigger] self.objects@.contains_key(k) ==> self.objects@[k].id
                    == k,
                self.event_handler.messages@ == Seq::<Message>::empty(),
                self.renderer.messages@ == Seq::<Message>::empty(),
                self.windows == old(self).windows,
                self.transforms == old(self).transforms,
                self.physics_outbox == old(self).physics_outbox,
                self.default_camera_id == old(self).default_camera_id,
                self.renderer_type == old(self).renderer_type,
                self.physics_engine.gravity == old(self).physics_engine.gravity,
            decreases ids@.len() - i,
        {
            let id = ids[i];
            proof {
                assert(old(self).objects.order_spec().contains(id));
                assert(old(self).objects@.contains_key(id));
            }
            match self.objects.take(id) {
                Some(mut e) => {
                    {
                        let q = &mut e.messages;
                        drained.append(q);
                    }
                    self.objects.put(e);
                    proof {
                        assert(self.objects@.dom() =~= old(self).objects@.dom());
                        assert(ids@.no_duplicates());
                        assert forall|j: int| #![auto] i + 1 <= j < ids@.len() implies self.objects@[ids@[j]]
                            == orig[ids@[j]] by {
                            assert(ids@[j] != ids@[i as int]);
                        }
                        assert forall|j: int| #![auto] 0 <= j < i + 1 implies {
                            &&& self.objects@[ids@[j]].messages@ == Seq::<Message>::empty()
                            &&& self.objects@[ids@[j]].id == orig[ids@[j]].id
                            &&& self.objects@[ids@[j]].kind == orig[ids@[j]].kind
                            &&& self.objects@[ids@[j]].components == orig[ids@[j]].components
                            &&& self.objects@[ids@[j]].model == orig[ids@[j]].model
                            &&& self.objects@[ids@[j]].inputs == orig[ids@[j]].inputs
                        } by {
                            if j < i as int {
                                assert(ids@[j] != ids@[i as int]);
                            }
                        }
                        let pre = ids@.subrange(0, i as int);
                        let cur = ids@.subrange(0, i as int + 1);
                        assert(cur.drop_last() =~= pre);
                        assert(cur.last() == ids@[i as int]);
                        lemma_concat_snoc(orig, cur);
                        assert(drained@ =~= base + concat_entity_messages(orig, cur));
                    }
                },
                None => {},
            }
            i += 1;
        }
        proof {
            assert(ids@.subrange(0, ids@.len() as int) =~= ids@);
        }
        drained
    }

    /// One drain cycle: empties every subsystem queue, dispatches each
    /// drained message in order, and collects the actions for the caller
    /// to perform and the errors it should log.  The final state and the
    /// returned action and error lists are exactly the fold of
    /// [`dispatch_step`] over the drained sequence, so messages are
    /// dispatched once each, in drain order, actions come back in that
    /// order, a resize lands in the window table before any later
    /// message of the same cycle is dispatched, and a failing message
    /// contributes its error and never aborts the rest of the queue.
    pub fn handle_messages(&mut self) -> (r: (Vec<EngineAction>, Vec<EngineError>))
        requires
            old(self).wf(),
        ensures
            final(self).wf(),
            final(self).event_handler.messages@ == Seq::<Message>::empty(),
            final(self).renderer.messages@ == Seq::<Message>::empty(),
            final(self).objects.order_spec() == old(self).objects.order_spec(),
            final(self).objects@.dom() == old(self).objects@.dom(),
            forall|k: u64| #[trigger] final(self).objects@.contains_key(k)
                ==> final(self).objects@[k].messages@ == Seq::<Message>::empty(),
            final(self).transforms == old(self).transforms,
            final(self).default_camera_id == old(self).default_camera_id,
            final(self).renderer_type == old(self).renderer_type,
            final(self).physics_engine.gravity == old(self).physics_engine.gravity,
            exists|mid: Map<u64, Entity>|
                #[trigger] queues_cleared(old(self).objects@, mid) && dispatched(
                    old(self).windows@,
                    mid,
                    old(self).physics_outbox@,
                    old(self).event_handler.messages@ + old(self).renderer.messages@
                        + concat_entity_messages(
                        old(self).objects@,
                        old(self).objects.order_spec(),
                    ),
                    final(self).windows@,
                    final(self).objects@,
                    final(self).physics_outbox@,
                    r.0@,
                    r.1@,
                ),
    {
        let ghost w0 = self.windows@;
        let ghost b0 = self.physics_outbox@;
        let drained = self.drain_queues();
        let ghost mid = self.objects@;
        let mut actions: Vec<EngineAction> = Vec::new();
        let mut errors: Vec<EngineError> = Vec::new();
        let mut i: usize = 0;
        proof {
            assert(drained@.subrange(0, 0) =~= Seq::<Message>::empty());
            assert(dispatched(
                w0,
                mid,
                b0,
                drained@.subrange(0, 0),
                self.windows@,
                self.objects@,
                self.physics_outbox@,
                actions@,
                errors@,
            ));
        }
        while i < drained.len()
            invariant
                self.wf(),
                0 <= i <= drained@.len(),
                self.event_handler.messages@ == Seq::<Message>::empty(),
                self.renderer.messages@ == Seq::<Message>::empty(),
                self.objects.order_spec() == old(self).objects.order_spec(),
                self.objects@.dom() == old(self).objects@.dom(),
                forall|k: u64| #[trigger] self.objects@.contains_key(k) ==> self.objects@[k].messages@
                    == Seq::<Message>::empty(),
                self.transforms == old(self).transforms,
                self.default_camera_id == old(self).default_camera_id,
                self.renderer_type == old(self).renderer_type,
                self.physics_engine.gravity == old(self).physics_engine.gravity,
                dispatched(
                    w0,
                    mid,
                    b0,
                    drained@.subrange(0, i as int),
                    self.windows@,
                    self.objects@,
                    self.physics_outbox@,
                    actions@,
                    errors@,
                ),
            decreases drained@.len() - i,
        {
            let ghost prefix = drained@.subrange(0, i as int);
            let ghost pw = self.windows@;
            let ghost po = self.objects@;
            let ghost pb = self.physics_outbox@;
            let ghost before_actions = actions@;
            let ghost before_errors = errors@;
            let msg = drained[i];
            match self.handle_message(msg) {
                Ok(mut acts) => {
                    let ghost a1 = acts@;
                    actions.append(&mut acts);
                    proof {
                        lemma_dispatched_snoc(
                            w0,
                            mid,
                            b0,
                            prefix,
                            pw,
                            po,
                            pb,
                            before_actions,
                            before_errors,
                            msg,
                            self.windows@,
                            self.objects@,
                            self.physics_outbox@,
                            a1,
                            None::<EngineError>,
                        );
                        assert(before_errors + Seq::<EngineError>::empty() =~= errors@);
                    }
                },
                Err(e) => {
                    errors.push(e);
                    proof {
                        lemma_dispatched_snoc(
                            w0,
                            mid,
                            b0,
                            prefix,
                            pw,
                            po,
                            pb,
                            before_actions,
                            before_errors,
                            msg,
                            self.windows@,
                            self.objects@,
                            self.physics_outbox@,
                            Seq::<EngineAction>::empty(),
                            Some(e),
                        );
                        assert(before_actions + Seq::<EngineAction>::empty() =~= actions@);
                        assert(before_errors + seq![e] =~= errors@);
                    }
                },
            }
            proof {
                assert(drained@.subrange(0, i as int + 1) =~= prefix.push(msg));
                assert forall|k: u64| #[trigger] self.objects@.contains_key(k) implies self.objects@[k].messages@
                    == Seq::<Message>::empty() by {
                    assert(po.contains_key(k));
                }
            }
            i += 1;
        }
        proof {
            assert(drained@.subrange(0, drained@.len() as int) =~= drained@);
            assert(queues_cleared(old(self).objects@, mid));
        }
        (actions, errors)
    }
}

} // verus!
