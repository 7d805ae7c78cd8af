//! Tests for the orchestrator: message routing, the drain cycle's
//! ordering, window-id errors, and single-level buffering.

use game_engine_lib::component::ComponentSet;
use game_engine_lib::engine::{Engine, EngineAction, EngineError};
use game_engine_lib::entity::{new_object, EntityRegistry};
use game_engine_lib::math::{BasicTransform, Quat, Vec3};
use game_engine_lib::messages::{
    route_window_event, EngineCommand, Message, MessageCommand, MessageContext, Systems, WindowEvent,
};
use game_engine_lib::physics::PhysicsCommand;
use game_engine_lib::rendering::{RendererCommand, RendererType};
use game_engine_lib::transform::TransformRegistry;

fn v3(x: f32, y: f32, z: f32) -> Vec3 {
    Vec3::new(x.to_bits(), y.to_bits(), z.to_bits())
}

fn identity() -> BasicTransform {
    BasicTransform {
        translation: v3(0.0, 0.0, 0.0),
        rotation: Quat::new(0.0f32.to_bits(), 0.0f32.to_bits(), 0.0f32.to_bits(), 1.0f32.to_bits()),
        scale: v3(1.0, 1.0, 1.0),
    }
}

fn renderer_message(command: RendererCommand) -> Message {
    Message {
        from: Systems::Windower,
        to: Systems::Renderer,
        context: MessageContext { command: MessageCommand::RendererCommand(command) },
    }
}

fn empty_engine() -> Engine {
    Engine::new(RendererType::ThreeD, EntityRegistry::new(), TransformRegistry::new(), 0)
}

#[test]
fn resize_then_render_fire_in_enqueue_order_and_size_is_live() {
    let mut engine = empty_engine();
    engine.add_window(7, 800, 600);

    engine.renderer.send(renderer_message(RendererCommand::HandleResize(
        7,
        WindowEvent::Resized { width: 1024, height: 768 },
    )));
    engine.renderer.send(renderer_message(RendererCommand::Render(7)));

    let (actions, errors) = engine.handle_messages();

    assert_eq!(actions, vec![EngineAction::Resize(7, 1024, 768), EngineAction::Render(7)]);
    assert!(errors.is_empty());
    let size = engine.window_size(7).unwrap();
    assert_eq!((size.width, size.height), (1024, 768));
}

#[test]
fn unknown_window_is_an_error_not_a_crash() {
    let mut engine = empty_engine();
    engine.add_window(1, 100, 100);

    engine.renderer.send(renderer_message(RendererCommand::Render(99)));
    engine.renderer.send(renderer_message(RendererCommand::Render(1)));

    let (actions, errors) = engine.handle_messages();

    // The failing message is logged and skipped; the rest of the queue
    // still runs.
    assert_eq!(errors, vec![EngineError::WindowNotFound(99)]);
    assert_eq!(actions, vec![EngineAction::Render(1)]);
}

#[test]
fn redraw_complete_requests_flush_and_redraw() {
    let mut engine = empty_engine();
    engine.add_window(4, 640, 480);

    let msg = Message {
        from: Systems::Windower,
        to: Systems::Engine,
        context: MessageContext {
            command: MessageCommand::EngineCommand(EngineCommand::RedrawComplete(4)),
        },
    };
    let actions = engine.handle_message(msg).unwrap();
    assert_eq!(actions, vec![EngineAction::DrainAgain, EngineAction::RequestRedraw(4)]);
}

#[test]
fn physics_commands_are_forwarded_without_blocking() {
    let mut engine = empty_engine();
    let command = PhysicsCommand::ApplyForce { id: 12, force: v3(0.0, 1.0, 0.0) };
    let msg = Message {
        from: Systems::EventHandler,
        to: Systems::Physics,
        context: MessageContext { command: MessageCommand::PhysicsCommand(command) },
    };
    let actions = engine.handle_message(msg).unwrap();
    assert!(actions.is_empty());
    assert_eq!(engine.take_physics_commands(), vec![command]);
    assert!(engine.take_physics_commands().is_empty());
}

#[test]
fn entity_queues_drain_after_subsystem_queues_and_only_once() {
    let mut transforms = TransformRegistry::new();
    let mut entities = EntityRegistry::new();
    let mut obj = new_object(identity(), None, ComponentSet::new(), &mut transforms);
    obj.send_message(Message {
        from: Systems::Engine,
        to: Systems::Physics,
        context: MessageContext {
            command: MessageCommand::PhysicsCommand(PhysicsCommand::Enable { id: 5 }),
        },
    });
    let obj_id = obj.id();
    entities.add(obj);

    let mut engine = Engine::new(RendererType::ThreeD, entities, transforms, 0);
    engine.add_window(2, 10, 10);
    engine.renderer.send(renderer_message(RendererCommand::Render(2)));

    let (actions, errors) = engine.handle_messages();

    // The renderer's queue drains before the entity's, and the entity's
    // queue is empty afterwards.
    assert_eq!(actions, vec![EngineAction::Render(2)]);
    assert!(errors.is_empty());
    assert_eq!(engine.take_physics_commands(), vec![PhysicsCommand::Enable { id: 5 }]);
    assert!(engine.objects.get(obj_id).unwrap().get_messages().is_empty());

    // A second drain finds nothing: messages are delivered once.
    let (actions2, errors2) = engine.handle_messages();
    assert!(actions2.is_empty());
    assert!(errors2.is_empty());
    assert!(engine.take_physics_commands().is_empty());
}

#[test]
fn broadcast_message_reaches_entities_through_the_bus() {
    let mut transforms = TransformRegistry::new();
    let mut entities = EntityRegistry::new();
    let obj = new_object(identity(), None, ComponentSet::new(), &mut transforms);
    let obj_id = obj.id();
    entities.add(obj);

    let mut engine = Engine::new(RendererType::ThreeD, entities, transforms, 0);
    let event = WindowEvent::KeyboardInput { key: 65, pressed: true };
    engine.event_handler.messages.push(route_window_event(9, event));

    let (actions, errors) = engine.handle_messages();
    assert!(actions.is_empty());
    assert!(errors.is_empty());
    assert_eq!(*engine.objects.get(obj_id).unwrap().recorded_inputs(), vec![event]);
}

#[test]
fn subsystem_queues_drain_in_fixed_order() {
    let mut engine = empty_engine();

    // One physics command sits in the renderer's queue, another in the
    // event handler's.  The drain visits the event handler's queue
    // first, so its command reaches the outbox first.
    engine.renderer.send(Message {
        from: Systems::Renderer,
        to: Systems::Physics,
        context: MessageContext {
            command: MessageCommand::PhysicsCommand(PhysicsCommand::Disable { id: 2 }),
        },
    });
    engine.event_handler.messages.push(Message {
        from: Systems::EventHandler,
        to: Systems::Physics,
        context: MessageContext {
            command: MessageCommand::PhysicsCommand(PhysicsCommand::Enable { id: 1 }),
        },
    });

    let (actions, errors) = engine.handle_messages();
    assert!(actions.is_empty());
    assert!(errors.is_empty());
    assert_eq!(
        engine.take_physics_commands(),
        vec![PhysicsCommand::Enable { id: 1 }, PhysicsCommand::Disable { id: 2 }]
    );
}

#[test]
fn route_window_event_partitions_by_destination() {
    let render = route_window_event(1, WindowEvent::RedrawRequested);
    assert!(matches!(
        render.context.command,
        MessageCommand::RendererCommand(RendererCommand::Render(1))
    ));

    let resize = route_window_event(2, WindowEvent::Resized { width: 3, height: 4 });
    assert!(matches!(
        resize.context.command,
        MessageCommand::RendererCommand(RendererCommand::HandleResize(
            2,
            WindowEvent::Resized { width: 3, height: 4 }
        ))
    ));

    let close = route_window_event(5, WindowEvent::CloseRequested);
    assert!(matches!(
        close.context.command,
        MessageCommand::RendererCommand(RendererCommand::HandleClose(5, WindowEvent::CloseRequested))
    ));

    let key = route_window_event(6, WindowEvent::KeyboardInput { key: 1, pressed: false });
    assert!(matches!(
        key.context.command,
        MessageCommand::EventHandlerCommand(_)
    ));
    assert!(matches!(key.to, Systems::EventHandler));
}

#[test]
fn invalid_event_shape_is_refused() {
    let mut engine = empty_engine();
    engine.add_window(3, 10, 10);
    let msg = renderer_message(RendererCommand::HandleResize(3, WindowEvent::CloseRequested));
    assert_eq!(engine.handle_message(msg), Err(EngineError::InvalidEvent));
}
