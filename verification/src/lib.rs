//! A fluent builder for hierarchical entity graphs in an entity-component
//! world.
//!
//! Callers declare entities and their components in nested, tree-shaped call
//! chains; the builder maintains parent/child linkage and injects the default
//! spatial-transform state. Two builder variants share one protocol: an
//! immediate variant that mutates a live [`store::World`] synchronously, and a
//! deferred variant that records operations into a
//! [`command_buffer::CommandBuffer`] for later replay.

pub mod builder;
pub mod command_buffer;
pub mod entity;
pub mod laws;
pub mod store;
