//! A verified model of a thin real-time rendering engine's core: the GPU
//! resource-ownership graph, the per-frame synchronization loop with its
//! deferred one-off-submission queue, and the declarative render-graph
//! builder.
//!
//! GPU objects (images, views, semaphores, fences, command buffers, pipeline
//! keys) appear here as plain integer handles; the host owns the actual
//! device objects and performs every device call, driving it from the plans
//! and teardown sequences these types return. The contracts state exactly
//! which handles each operation touches, how the shared device/allocator
//! ownership counts move, and how the frame index advances.

pub mod shared;
pub mod image;
pub mod pipeline_store;
pub mod renderer;
pub mod draw_orch;
