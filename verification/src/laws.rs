//! The laws the builder protocol obeys, stated over the shared step
//! functions that both builder variants' contracts are phrased in.
//!
//! Scope restoration is not restated here: it is the `ensures` of
//! `with_children` itself, which returns the cursor and the scope stack
//! exactly as they were before the call. Likewise, immediate/deferred
//! agreement rests on both variants ensuring the same step functions and on
//! `CommandBuffer::apply` producing exactly the replayed contents.

use vstd::prelude::*;

use crate::builder::{
    step_children_enter, step_create, step_entities, step_set_entity, step_with, BuilderModel,
};
use crate::entity::{Entity, LocalTransform};

verus! {

/// Law (parent linkage): an entity created through `entity` or
/// `entity_with` while a scope is open is appended as a fresh untagged
/// record that carries a parent link to the innermost open parent and the
/// identity transform; every earlier record is untouched, the cursor moves
/// to the new entity, and the open scopes stay as they were.
pub proof fn lemma_scoped_creation_links_parent<C>(m: BuilderModel<C>, components: Seq<C>)
    requires
        m.scope.len() > 0,
        m.next_id == m.store.len(),
        m.store.len() < usize::MAX,
    ensures
        ({
            let m2 = step_create(m, components);
            &&& m2.store.len() == m.store.len() + 1
            &&& m2.store.last().parent == Some(m.scope.last())
            &&& m2.store.last().transform == Some(LocalTransform { })
            &&& m2.store.last().components == components
            &&& m2.store.last().tags == Seq::<u64>::empty()
            &&& (forall|i: int| 0 <= i < m.store.len() ==> m2.store[i] == m.store[i])
            &&& m2.current == Some(Entity { id: m.store.len() as usize })
            &&& m2.scope == m.scope
        }),
{
}

/// Law (roots stay unlinked): an entity created through `entity` or
/// `entity_with` while no scope is open receives neither a parent link nor
/// a transform.
pub proof fn lemma_unscoped_creation_stays_unlinked<C>(m: BuilderModel<C>, components: Seq<C>)
    requires
        m.scope.len() == 0,
        m.next_id == m.store.len(),
    ensures
        ({
            let m2 = step_create(m, components);
            &&& m2.store.len() == m.store.len() + 1
            &&& m2.store.last().parent is None
            &&& m2.store.last().transform is None
            &&& m2.store.last().components == components
            &&& (forall|i: int| 0 <= i < m.store.len() ==> m2.store[i] == m.store[i])
        }),
{
}

/// Law (no stray linkage): entities created through bulk `entities` never
/// receive a parent link or a transform, however many scopes are open; the
/// cursor and the scope stack are untouched.
pub proof fn lemma_bulk_creation_never_links<C>(
    m: BuilderModel<C>,
    tags: Seq<u64>,
    bundles: Seq<Seq<C>>,
)
    ensures
        ({
            let m2 = step_entities(m, tags, bundles);
            &&& m2.store.len() == m.store.len() + bundles.len()
            &&& (forall|j: int|
                0 <= j < bundles.len() ==> {
                    &&& (#[trigger] m2.store[m.store.len() + j]).parent is None
                    &&& m2.store[m.store.len() + j].transform is None
                    &&& m2.store[m.store.len() + j].components == bundles[j]
                    &&& m2.store[m.store.len() + j].tags == tags
                })
            &&& (forall|i: int| 0 <= i < m.store.len() ==> m2.store[i] == m.store[i])
            &&& m2.current == m.current
            &&& m2.scope == m.scope
        }),
{
}

/// Law (fresh allocation tracks the store): when a builder's next
/// identifier names the slot past its last record — as it does for any
/// builder started from a source — every protocol step keeps it so. The
/// identifiers both variants hand out for one call sequence therefore
/// coincide, which is what lets a deferred log replayed onto a fresh world
/// reproduce the immediate variant's graph.
pub proof fn lemma_allocation_tracks_store<C>(
    m: BuilderModel<C>,
    component: C,
    entity: Entity,
    components: Seq<C>,
    tags: Seq<u64>,
    bundles: Seq<Seq<C>>,
)
    requires
        m.next_id == m.store.len(),
    ensures
        step_create(m, components).next_id == step_create(m, components).store.len(),
        step_set_entity(m, entity).next_id == step_set_entity(m, entity).store.len(),
        step_with(m, component).next_id == step_with(m, component).store.len(),
        step_entities(m, tags, bundles).next_id == step_entities(m, tags, bundles).store.len(),
        m.current is Some ==> step_children_enter(m).next_id == step_children_enter(
            m,
        ).store.len(),
{
}

} // verus!
