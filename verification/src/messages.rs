//! The typed message bus: named subsystems, decoded window events, and the
//! command envelope routed between subsystems.  Messages are queued by the
//! producing subsystem and drained once per tick by the orchestrator.

use vstd::prelude::*;

use crate::physics::PhysicsCommand;
use crate::rendering::RendererCommand;

verus! {

/// The named subsystems between which messages are routed.
#[derive(Clone, Copy, Debug, PartialEq, Eq, Structural, Hash)]
pub enum Systems {
    Engine,
    EventHandler,
    Renderer,
    Windower,
    Physics,
}

/// An already-decoded window or input event, as the windowing collaborator
/// hands it to the core.  Scalar payloads are plain integers; the scale
/// factor is the bit pattern of an IEEE 754 double-precision number.
#[derive(Clone, Copy, Debug, PartialEq, Eq, Structural, Hash)]
pub enum WindowEvent {
    RedrawRequested,
    Resized { width: u32, height: u32 },
    ScaleFactorChanged { scale: u64 },
    CloseRequested,
    KeyboardInput { key: u32, pressed: bool },
    Other,
}

/// A command destined for the input-event broadcaster.
#[derive(Clone, Copy, Debug, PartialEq, Eq, Structural, Hash)]
pub enum EventHandlerCommand {
    WindowEvent(u64, WindowEvent),
}

/// A command destined for the orchestrator itself.
#[derive(Clone, Copy, Debug, PartialEq, Eq, Structural, Hash)]
pub enum EngineCommand {
    RedrawComplete(u64),
}

/// The payload of a message, partitioned by destination subsystem.
#[derive(Clone, Copy, Debug, PartialEq, Eq, Structural, Hash)]
pub enum MessageCommand {
    EngineCommand(EngineCommand),
    RendererCommand(RendererCommand),
    EventHandlerCommand(EventHandlerCommand),
    PhysicsCommand(PhysicsCommand),
}

/// The context a message carries: its command.
#[derive(Clone, Copy, Debug, PartialEq, Eq, Structural, Hash)]
pub struct MessageContext {
    pub command: MessageCommand,
}

/// An immutable message: source subsystem, destination subsystem, payload.
#[derive(Clone, Copy, Debug, PartialEq, Eq, Structural, Hash)]
pub struct Message {
    pub from: Systems,
    pub to: Systems,
    pub context: MessageContext,
}

/// How the windowing layer routes one decoded window event into the bus:
/// a redraw request becomes a render command, a resize or close becomes
/// the matching renderer command, and everything else is passed through
/// to the event handler for entity-level input handling.
pub fn route_window_event(window_id: u64, event: WindowEvent) -> (r: Message)
    ensures
        r.from == Systems::Windower,
        match event {
            WindowEvent::RedrawRequested => r.to == Systems::Renderer && r.context.command
                == MessageCommand::RendererCommand(crate::rendering::RendererCommand::Render(window_id)),
            WindowEvent::Resized { .. } => r.to == Systems::Renderer && r.context.command
                == MessageCommand::RendererCommand(
                crate::rendering::RendererCommand::HandleResize(window_id, event),
            ),
            WindowEvent::CloseRequested => r.to == Systems::Renderer && r.context.command
                == MessageCommand::RendererCommand(
                crate::rendering::RendererCommand::HandleClose(window_id, event),
            ),
            _ => r.to == Systems::EventHandler && r.context.command
                == MessageCommand::EventHandlerCommand(
                EventHandlerCommand::WindowEvent(window_id, event),
            ),
        },
{
    let command = match event {
        WindowEvent::RedrawRequested => MessageCommand::RendererCommand(
            crate::rendering::RendererCommand::Render(window_id),
        ),
        WindowEvent::Resized { .. } => MessageCommand::RendererCommand(
            crate::rendering::RendererCommand::HandleResize(window_id, event),
        ),
        WindowEvent::CloseRequested => MessageCommand::RendererCommand(
            crate::rendering::RendererCommand::HandleClose(window_id, event),
        ),
        _ => MessageCommand::EventHandlerCommand(
            EventHandlerCommand::WindowEvent(window_id, event),
        ),
    };
    let to = match event {
        WindowEvent::RedrawRequested | WindowEvent::Resized { .. } | WindowEvent::CloseRequested => Systems::Renderer,
        _ => Systems::EventHandler,
    };
    Message { from: Systems::Windower, to, context: MessageContext { command } }
}

/// The outgoing message queue a subsystem owns.  Producers append; the
/// orchestrator drains the whole queue once per tick, in FIFO order.
#[derive(Clone, Debug)]
pub struct MessageQueue {
    pub messages: Vec<Message>,
}

impl MessageQueue {
    pub fn new() -> (r: Self)
        ensures
            r.messages@ == Seq::<Message>::empty(),
    {
        Self { messages: Vec::new() }
    }

    /// Appends a message for the next drain cycle.
    pub fn send(&mut self, message: Message)
        ensures
            final(self).messages@ == old(self).messages@.push(message),
    {
        self.messages.push(message);
    }

    pub fn get_messages(&self) -> (r: &Vec<Message>)
        ensures
            r@ == self.messages@,
    {
        &self.messages
    }

    /// Mutable access to the queue; the caller's writes land in it.
    pub fn get_messages_mut(&mut self) -> (r: &mut Vec<Message>)
        ensures
            *r == old(self).messages,
            final(self).messages == *final(r),
    {
        &mut self.messages
    }

    pub fn clear_messages(&mut self)
        ensures
            final(self).messages@ == Seq::<Message>::empty(),
    {
        self.messages.clear();
    }
}

} // verus!
