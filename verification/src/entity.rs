//! Entity identifiers, the two relationship/transform components the builder
//! attaches, and the builder's usage errors.

use vstd::prelude::*;

verus! {

/// An opaque, comparable identifier for one entity slot in a store.
///
/// Identifiers are allocated by the store, never by the builder. An
/// identifier handed out by a deferred builder is provisional: it denotes a
/// slot of the world the owning command buffer will later be applied to, and
/// is meaningful only once that application has happened.
#[derive(Clone, Copy, PartialEq, Eq, Structural, Debug)]
pub struct Entity {
    pub id: usize,
}

/// Relationship component linking a child entity to its parent entity.
#[derive(Clone, Copy, PartialEq, Eq, Structural, Debug)]
pub struct Parent(pub Entity);

/// The spatial component every scoped child receives on creation.
///
/// The builder only ever writes the identity value; the spatial payload
/// itself lives with the transform-propagation system that later consumes
/// this component, so the store records just the identity marker.
#[derive(Clone, Copy, PartialEq, Eq, Structural, Debug)]
pub struct LocalTransform {}

impl LocalTransform {
    /// The identity transform, the only value the builder attaches.
    pub fn identity() -> (t: LocalTransform)
        ensures
            t == (LocalTransform {}),
    {
        LocalTransform {}
    }
}

/// Usage errors of the builder protocol.
///
/// Both indicate a caller logic defect: an operation that needs a current
/// entity was invoked before any `entity`, `entity_with` or `set_entity`
/// call in the active scope. The chain is aborted and should be discarded.
#[derive(Clone, Copy, PartialEq, Eq, Structural, Debug)]
pub enum BuildError {
    /// `with` was called while no current entity was set.
    NoCurrentEntity,
    /// `with_children` was called while no current entity was set.
    ChildrenWithoutParent,
}

impl BuildError {
    /// A diagnostic naming the missing precondition.
    pub fn message(&self) -> (m: &'static str)
        ensures
            *self == BuildError::NoCurrentEntity ==> m@ == "Cannot add a component without a current entity. Try creating an entity first."@,
            *self == BuildError::ChildrenWithoutParent ==> m@ == "Cannot add children without a parent. Try creating an entity first."@,
    {
        match self {
            BuildError::NoCurrentEntity => "Cannot add a component without a current entity. Try creating an entity first.",
            BuildError::ChildrenWithoutParent => "Cannot add children without a parent. Try creating an entity first.",
        }
    }
}

} // verus!
