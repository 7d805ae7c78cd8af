//! The renderer-facing command surface.  The concrete rendering backend is
//! an external collaborator: the core only routes commands to it and hands
//! it per-entity global transforms and model handles.

use vstd::prelude::*;

use crate::messages::WindowEvent;

verus! {

/// A command destined for the renderer, keyed by window id.
#[derive(Clone, Copy, Debug, PartialEq, Eq, Structural, Hash)]
pub enum RendererCommand {
    Render(u64),
    HandleResize(u64, WindowEvent),
    HandleScaleChange(u64, WindowEvent),
    HandleClose(u64, WindowEvent),
}

/// Which rendering backend the orchestrator is wired to.
#[derive(Clone, Copy, Debug, PartialEq, Eq, Structural, Hash)]
pub enum RendererType {
    ThreeD,
}

} // verus!
