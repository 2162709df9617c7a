//! A fluent builder for trees of UI entities, where every change to the scene
//! graph is recorded as a deferred command and applied later, in order, when
//! the owning runtime flushes the queue.

pub mod commands;
pub mod entity;
pub mod laws;
pub mod ui_builder;
pub mod world;
