//! Runtime core of a small interactive 3D application framework: entities
//! carrying typed components, a hierarchical transform registry, a typed
//! message bus drained once per tick, and a physics bridge that keeps entity
//! transforms consistent with a rigid-body simulation.


pub mod assets;
pub mod component;
pub mod context;
pub mod engine;
pub mod entity;
pub mod event;
pub mod math;
pub mod messages;
pub mod physics;
pub mod rendering;
pub mod systems;
pub mod transform;
