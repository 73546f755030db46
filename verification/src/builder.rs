//! The hierarchy-builder protocol: a cursor-based call-chain API over an
//! entity store.
//!
//! Both builder variants thread the builder by value through each call and
//! keep the same cursor state: the current entity that `with` applies to,
//! and an explicit stack of open parent scopes. Every state transition is
//! described by one shared family of step functions over [`BuilderModel`],
//! and entity creation runs through one shared parent-link policy, so the
//! immediate and the deferred variant provably behave alike.

use vstd::prelude::*;

use crate::command_buffer::CommandBuffer;
use crate::entity::{BuildError, Entity, LocalTransform, Parent};
use crate::store::{
    bundle_views, copy_values, inserted_records, with_component, with_parent, with_transform,
    EntityStore, RecordModel, World,
};

verus! {

/// Model of a builder: the store's contents, the identifier the next
/// created entity receives, the cursor, and the open parent scopes
/// (outermost first).
#[verifier::ext_equal]
pub ghost struct BuilderModel<C> {
    pub store: Seq<RecordModel<C>>,
    pub next_id: int,
    pub current: Option<Entity>,
    pub scope: Seq<Entity>,
}

/// The parent-link policy (shared by both variants): an entity created
/// while a scope is open is linked to the innermost open parent and given
/// the identity transform; with no open scope it is left untouched.
pub open spec fn linked_after_create<C>(
    s: Seq<RecordModel<C>>,
    e: Entity,
    scope: Seq<Entity>,
) -> Seq<RecordModel<C>> {
    if scope.len() > 0 {
        with_transform(with_parent(s, e, scope.last()), e, LocalTransform { })
    } else {
        s
    }
}

/// Creating one entity from a component bundle: a fresh untagged record is
/// appended, the parent-link policy runs, and the cursor moves to it.
pub open spec fn step_create<C>(m: BuilderModel<C>, components: Seq<C>) -> BuilderModel<C> {
    let e = Entity { id: m.next_id as usize };
    BuilderModel {
        store: linked_after_create(
            m.store + inserted_records(Seq::<u64>::empty(), seq![components]),
            e,
            m.scope,
        ),
        next_id: m.next_id + 1,
        current: Some(e),
        scope: m.scope,
    }
}

/// `entity`: creating one component-less entity.
pub open spec fn step_entity<C>(m: BuilderModel<C>) -> BuilderModel<C> {
    step_create(m, Seq::<C>::empty())
}

/// `entity_with`: creating one entity from an atomic component bundle.
pub open spec fn step_entity_with<C>(m: BuilderModel<C>, components: Seq<C>) -> BuilderModel<C> {
    step_create(m, components)
}

/// `set_entity`: the cursor moves to a pre-existing entity; nothing is
/// created and no parent link is applied.
pub open spec fn step_set_entity<C>(m: BuilderModel<C>, e: Entity) -> BuilderModel<C> {
    BuilderModel { current: Some(e), ..m }
}

/// `with`: one component is merged into the current entity.
pub open spec fn step_with<C>(m: BuilderModel<C>, c: C) -> BuilderModel<C> {
    if m.current is Some {
        BuilderModel { store: with_component(m.store, m.current.unwrap(), c), ..m }
    } else {
        m
    }
}

/// `entities`: bulk creation; the new records never receive a parent link
/// and the cursor and scopes are untouched.
pub open spec fn step_entities<C>(
    m: BuilderModel<C>,
    tags: Seq<u64>,
    bundles: Seq<Seq<C>>,
) -> BuilderModel<C> {
    BuilderModel {
        store: m.store + inserted_records(tags, bundles),
        next_id: m.next_id + bundles.len(),
        ..m
    }
}

/// Entering `with_children`: the current entity becomes the innermost open
/// parent and the nested scope starts without a cursor.
pub open spec fn step_children_enter<C>(m: BuilderModel<C>) -> BuilderModel<C> {
    BuilderModel { current: None, scope: m.scope.push(m.current.unwrap()), ..m }
}

/// Runs the parent-link policy against a store: exactly one parent
/// slot write and one transform slot write, or none without an open scope.
fn apply_parent_link<C, S: EntityStore<C>>(store: &mut S, entity: Entity, scope: &Vec<Entity>)
    ensures
        final(store).contents() == linked_after_create(old(store).contents(), entity, scope@),
        final(store).id_base() == old(store).id_base(),
{
    if scope.len() > 0 {
        let p = scope[scope.len() - 1];
        store.add_parent(entity, Parent(p));
        store.add_transform(entity, LocalTransform::identity());
        proof {
            assert(p == scope@.last());
        }
    }
}

/// Creates one entity from a bundle and links it per the policy; the shared
/// creation path of `entity` and `entity_with` for both variants.
fn create_entity<C, S: EntityStore<C>>(store: &mut S, scope: &Vec<Entity>, components: Vec<C>) -> (e: Entity)
    requires
        old(store).id_base() + 1 <= usize::MAX,
    ensures
        e.id == old(store).id_base(),
        final(store).contents() == linked_after_create(
            old(store).contents() + inserted_records(Seq::<u64>::empty(), seq![components@]),
            e,
            scope@,
        ),
        final(store).id_base() == old(store).id_base() + 1,
{
    let ghost comps = components@;
    let mut bundles: Vec<Vec<C>> = Vec::new();
    bundles.push(components);
    proof {
        assert(bundle_views(bundles@) =~= seq![comps]);
    }
    let ids = store.insert(Vec::new(), bundles);
    let e = ids[0];
    apply_parent_link(store, e, scope);
    e
}

/// A capability that atomically yields the component bundle one entity is
/// created from. A plain `Vec` of components is such a capability;
/// application code may supply its own.
pub trait ComponentSet<C>: Sized {
    /// The bundle this capability describes.
    spec fn spec_components(&self) -> Seq<C>;

    /// Yields the bundle.
    fn into_components(self) -> (v: Vec<C>)
        ensures
            v@ == self.spec_components(),
    ;
}

impl<C> ComponentSet<C> for Vec<C> {
    open spec fn spec_components(&self) -> Seq<C> {
        self@
    }

    fn into_components(self) -> (v: Vec<C>) {
        self
    }
}

/// The immediate builder: every call mutates the live world synchronously.
pub struct WorldBuilder<C> {
    pub world: World<C>,
    pub current_entity: Option<Entity>,
    pub parent_scope: Vec<Entity>,
}

impl<C> View for WorldBuilder<C> {
    type V = BuilderModel<C>;

    open spec fn view(&self) -> BuilderModel<C> {
        BuilderModel {
            store: self.world.contents(),
            next_id: self.world.id_base(),
            current: self.current_entity,
            scope: self.parent_scope@,
        }
    }
}

/// A value an immediate builder can be started from.
pub trait WorldBuilderSource<C>: EntityStore<C> {
    /// Starts a builder over this store, with no cursor and no open scope.
    fn build(self) -> (b: WorldBuilder<C>)
        ensures
            b@.store == self.contents(),
            b@.next_id == self.id_base(),
            b@.current is None,
            b@.scope == Seq::<Entity>::empty(),
    ;
}

impl<C> WorldBuilderSource<C> for World<C> {
    fn build(self) -> (b: WorldBuilder<C>) {
        WorldBuilder { world: self, current_entity: None, parent_scope: Vec::new() }
    }
}

impl<C> WorldBuilder<C> {
    /// Creates a new component-less entity, makes it current, and links it
    /// to the innermost open parent, if any. The precondition only rules
    /// out an exhausted store, whose identifier space is spent: that is a
    /// fatal store-level condition, not a protocol error.
    pub fn entity(self) -> (r: WorldBuilder<C>)
        requires
            self@.next_id < usize::MAX,
        ensures
            r@ == step_entity(self@),
    {
        let mut this = self;
        let e = create_entity(&mut this.world, &this.parent_scope, Vec::new());
        this.current_entity = Some(e);
        proof {
            assert(this@ =~~= step_entity(self@));
        }
        this
    }

    /// Makes a pre-existing entity current without creating anything and
    /// without applying the parent-link policy.
    pub fn set_entity(self, entity: Entity) -> (r: WorldBuilder<C>)
        ensures
            r@ == step_set_entity(self@, entity),
    {
        let mut this = self;
        this.current_entity = Some(entity);
        proof {
            assert(this@ =~~= step_set_entity(self@, entity));
        }
        this
    }

    /// Merges one component into the current entity; the store may have to
    /// relocate the entity's storage for the wider component signature, so
    /// prefer `entity_with` when several components are known up front.
    /// Fails loudly when no current entity is set: that is a caller logic
    /// defect, never a no-op.
    pub fn with(self, component: C) -> (r: Result<WorldBuilder<C>, BuildError>)
        ensures
            match r {
                Ok(out) => self@.current is Some && out@ == step_with(self@, component),
                Err(e) => self@.current is None && e == BuildError::NoCurrentEntity,
            },
    {
        let mut this = self;
        match this.current_entity {
            Some(e) => {
                this.world.add_component(e, component);
                proof {
                    assert(this@ =~~= step_with(self@, component));
                }
                Ok(this)
            },
            None => Err(BuildError::NoCurrentEntity),
        }
    }

    /// Bulk-inserts one entity per bundle. Deliberately leaves the cursor
    /// and the scopes untouched and applies no parent link to any of the
    /// created entities. The precondition only rules out an exhausted
    /// store.
    pub fn entities(self, bundles: Vec<Vec<C>>) -> (r: WorldBuilder<C>)
        requires
            self@.next_id + bundles@.len() <= usize::MAX,
        ensures
            r@ == step_entities(self@, Seq::<u64>::empty(), bundle_views(bundles@)),
    {
        let mut this = self;
        let _ = this.world.insert(Vec::new(), bundles);
        proof {
            assert(this@ =~~= step_entities(self@, Seq::<u64>::empty(), bundle_views(bundles@)));
        }
        this
    }

    /// Creates one entity from an atomic component bundle, makes it
    /// current, and links it per the policy. The preferred path when more
    /// than one component is known up front, avoiding the per-call
    /// relocation cost of repeated `with`. The precondition only rules out
    /// an exhausted store.
    pub fn entity_with<T: ComponentSet<C>>(self, component_set: T) -> (r: WorldBuilder<C>)
        requires
            self@.next_id < usize::MAX,
        ensures
            r@ == step_entity_with(self@, component_set.spec_components()),
    {
        let mut this = self;
        let components = component_set.into_components();
        let e = create_entity(&mut this.world, &this.parent_scope, components);
        this.current_entity = Some(e);
        proof {
            assert(this@ =~~= step_entity_with(self@, component_set.spec_components()));
        }
        this
    }

    /// Opens a parent scope rooted at the current entity, hands the builder
    /// to the closure, then restores the cursor and the scope stack exactly
    /// as they were before the call, whatever the closure did. Fails
    /// with [`BuildError::ChildrenWithoutParent`] when no current entity is
    /// set, and propagates the closure's own failure unchanged.
    pub fn with_children<F: FnOnce(WorldBuilder<C>) -> Result<WorldBuilder<C>, BuildError>>(
        self,
        build_children: F,
    ) -> (r: Result<WorldBuilder<C>, BuildError>)
        requires
            forall|b: WorldBuilder<C>|
                b@ == step_children_enter(self@) ==> #[trigger] call_requires(build_children, (b,)),
        ensures
            match r {
                Ok(out) => {
                    &&& self@.current is Some
                    &&& out@.current == self@.current
                    &&& out@.scope == self@.scope
                    &&& exists|arg: WorldBuilder<C>, mid: WorldBuilder<C>|
                        {
                            &&& arg@ == step_children_enter(self@)
                            &&& #[trigger] call_ensures(build_children, (arg,), Ok(mid))
                            &&& out@.store == mid@.store
                            &&& out@.next_id == mid@.next_id
                        }
                },
                Err(e) => {
                    ||| (self@.current is None && e == BuildError::ChildrenWithoutParent)
                    ||| (self@.current is Some && exists|arg: WorldBuilder<C>|
                        arg@ == step_children_enter(self@) && #[trigger] call_ensures(
                            build_children,
                            (arg,),
                            Err(e),
                        ))
                },
            },
    {
        let mut this = self;
        match this.current_entity {
            None => Err(BuildError::ChildrenWithoutParent),
            Some(cur) => {
                let saved_scope = copy_values(&this.parent_scope);
                this.parent_scope.push(cur);
                this.current_entity = None;
                proof {
                    assert(this@ =~~= step_children_enter(self@));
                }
                let ghost entered = this;
                let res = build_children(this);
                match res {
                    Ok(inner) => {
                        let mut out = inner;
                        out.current_entity = Some(cur);
                        out.parent_scope = saved_scope;
                        proof {
                            assert(call_ensures(build_children, (entered,), Ok(inner)));
                        }
                        Ok(out)
                    },
                    Err(err) => {
                        proof {
                            assert(call_ensures(build_children, (entered,), Err(err)));
                        }
                        Err(err)
                    },
                }
            },
        }
    }
}

/// The deferred builder: every call records into the command buffer, and
/// the entity identifiers it hands out are provisional until the buffer is
/// applied to a world.
pub struct CommandBufferBuilder<C> {
    pub command_buffer: CommandBuffer<C>,
    pub current_entity: Option<Entity>,
    pub parent_scope: Vec<Entity>,
}

impl<C> View for CommandBufferBuilder<C> {
    type V = BuilderModel<C>;

    open spec fn view(&self) -> BuilderModel<C> {
        BuilderModel {
            store: self.command_buffer.contents(),
            next_id: self.command_buffer.id_base(),
            current: self.current_entity,
            scope: self.parent_scope@,
        }
    }
}

/// A value a deferred builder can be started from.
pub trait CommandBufferBuilderSource<C>: EntityStore<C> {
    /// Starts a builder over this buffer, with no cursor and no open scope.
    fn build(self) -> (b: CommandBufferBuilder<C>)
        ensures
            b@.store == self.contents(),
            b@.next_id == self.id_base(),
            b@.current is None,
            b@.scope == Seq::<Entity>::empty(),
    ;
}

impl<C> CommandBufferBuilderSource<C> for CommandBuffer<C> {
    fn build(self) -> (b: CommandBufferBuilder<C>) {
        CommandBufferBuilder { command_buffer: self, current_entity: None, parent_scope: Vec::new() }
    }
}

impl<C> CommandBufferBuilder<C> {
    /// Creates a new component-less entity, makes it current, and links it
    /// to the innermost open parent, if any. The precondition only rules
    /// out an exhausted store, whose identifier space is spent: that is a
    /// fatal store-level condition, not a protocol error.
    pub fn entity(self) -> (r: CommandBufferBuilder<C>)
        requires
            self@.next_id < usize::MAX,
        ensures
            r@ == step_entity(self@),
    {
        let mut this = self;
        let e = create_entity(&mut this.command_buffer, &this.parent_scope, Vec::new());
        this.current_entity = Some(e);
        proof {
            assert(this@ =~~= step_entity(self@));
        }
        this
    }

    /// Makes a pre-existing entity current without creating anything and
    /// without applying the parent-link policy.
    pub fn set_entity(self, entity: Entity) -> (r: CommandBufferBuilder<C>)
        ensures
            r@ == step_set_entity(self@, entity),
    {
        let mut this = self;
        this.current_entity = Some(entity);
        proof {
            assert(this@ =~~= step_set_entity(self@, entity));
        }
        this
    }

    /// Merges one component into the current entity; the store may have to
    /// relocate the entity's storage for the wider component signature, so
    /// prefer `entity_with` when several components are known up front.
    /// Fails loudly when no current entity is set: that is a caller logic
    /// defect, never a no-op.
    pub fn with(self, component: C) -> (r: Result<CommandBufferBuilder<C>, BuildError>)
        ensures
            match r {
                Ok(out) => self@.current is Some && out@ == step_with(self@, component),
                Err(e) => self@.current is None && e == BuildError::NoCurrentEntity,
            },
    {
        let mut this = self;
        match this.current_entity {
            Some(e) => {
                this.command_buffer.add_component(e, component);
                proof {
                    assert(this@ =~~= step_with(self@, component));
                }
                Ok(this)
            },
            None => Err(BuildError::NoCurrentEntity),
        }
    }

    /// Bulk-inserts one entity per bundle, all carrying the given tags.
    /// Deliberately leaves the cursor and the scopes untouched and applies
    /// no parent link to any of the created entities. The precondition
    /// only rules out an exhausted store.
    pub fn entities(self, tags: Vec<u64>, bundles: Vec<Vec<C>>) -> (r: CommandBufferBuilder<C>)
        requires
            self@.next_id + bundles@.len() <= usize::MAX,
        ensures
            r@ == step_entities(self@, tags@, bundle_views(bundles@)),
    {
        let mut this = self;
        let _ = this.command_buffer.insert(tags, bundles);
        proof {
            assert(this@ =~~= step_entities(self@, tags@, bundle_views(bundles@)));
        }
        this
    }

    /// Creates one entity from an atomic component bundle, makes it
    /// current, and links it per the policy. The preferred path when more
    /// than one component is known up front, avoiding the per-call
    /// relocation cost of repeated `with`. The precondition only rules out
    /// an exhausted store.
    pub fn entity_with<T: ComponentSet<C>>(self, component_set: T) -> (r: CommandBufferBuilder<C>)
        requires
            self@.next_id < usize::MAX,
        ensures
            r@ == step_entity_with(self@, component_set.spec_components()),
    {
        let mut this = self;
        let components = component_set.into_components();
        let e = create_entity(&mut this.command_buffer, &this.parent_scope, components);
        this.current_entity = Some(e);
        proof {
            assert(this@ =~~= step_entity_with(self@, component_set.spec_components()));
        }
        this
    }

    /// Opens a parent scope rooted at the current entity, hands the builder
    /// to the closure, then restores the cursor and the scope stack exactly
    /// as they were before the call, whatever the closure did. Fails
    /// with [`BuildError::ChildrenWithoutParent`] when no current entity is
    /// set, and propagates the closure's own failure unchanged.
    pub fn with_children<
        F: FnOnce(CommandBufferBuilder<C>) -> Result<CommandBufferBuilder<C>, BuildError>,
    >(self, build_children: F) -> (r: Result<CommandBufferBuilder<C>, BuildError>)
        requires
            forall|b: CommandBufferBuilder<C>|
                b@ == step_children_enter(self@) ==> #[trigger] call_requires(build_children, (b,)),
        ensures
            match r {
                Ok(out) => {
                    &&& self@.current is Some
                    &&& out@.current == self@.current
                    &&& out@.scope == self@.scope
                    &&& exists|arg: CommandBufferBuilder<C>, mid: CommandBufferBuilder<C>|
                        {
                            &&& arg@ == step_children_enter(self@)
                            &&& #[trigger] call_ensures(build_children, (arg,), Ok(mid))
                            &&& out@.store == mid@.store
                            &&& out@.next_id == mid@.next_id
                        }
                },
                Err(e) => {
                    ||| (self@.current is None && e == BuildError::ChildrenWithoutParent)
                    ||| (self@.current is Some && exists|arg: CommandBufferBuilder<C>|
                        arg@ == step_children_enter(self@) && #[trigger] call_ensures(
                            build_children,
                            (arg,),
                            Err(e),
                        ))
                },
            },
    {
        let mut this = self;
        match this.current_entity {
            None => Err(BuildError::ChildrenWithoutParent),
            Some(cur) => {
                let saved_scope = copy_values(&this.parent_scope);
                this.parent_scope.push(cur);
                this.current_entity = None;
                proof {
                    assert(this@ =~~= step_children_enter(self@));
                }
                let ghost entered = this;
                let res = build_children(this);
                match res {
                    Ok(inner) => {
                        let mut out = inner;
                        out.current_entity = Some(cur);
                        out.parent_scope = saved_scope;
                        proof {
                            assert(call_ensures(build_children, (entered,), Ok(inner)));
                        }
                        Ok(out)
                    },
                    Err(err) => {
                        proof {
                            assert(call_ensures(build_children, (entered,), Err(err)));
                        }
                        Err(err)
                    },
                }
            },
        }
    }
}

} // verus!
