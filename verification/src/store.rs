//! The entity-store contract shared by the immediate and the deferred
//! variant, its mathematical model, and the immediate [`World`] store.

use vstd::prelude::*;

use crate::entity::{Entity, LocalTransform, Parent};

verus! {

/// Mathematical model of one entity slot: its tags, its user components in
/// insertion order, and the two slots the parent-link policy writes.
#[verifier::ext_equal]
pub ghost struct RecordModel<C> {
    pub tags: Seq<u64>,
    pub components: Seq<C>,
    pub parent: Option<Entity>,
    pub transform: Option<LocalTransform>,
}

/// The record a freshly inserted entity starts from: the batch's tags, the
/// caller's component bundle, and no linkage.
pub open spec fn fresh_record<C>(tags: Seq<u64>, components: Seq<C>) -> RecordModel<C> {
    RecordModel { tags: tags, components: components, parent: None, transform: None }
}

/// The records a bulk insertion appends: one fresh record per bundle, all
/// sharing the batch's tags.
pub open spec fn inserted_records<C>(tags: Seq<u64>, bundles: Seq<Seq<C>>) -> Seq<RecordModel<C>> {
    bundles.map_values(|b: Seq<C>| fresh_record(tags, b))
}

/// The sequences the elements of a vector of bundles denote.
pub open spec fn bundle_views<C>(bundles: Seq<Vec<C>>) -> Seq<Seq<C>> {
    bundles.map_values(|b: Vec<C>| b@)
}

/// Store contents after one component is merged into an entity's component
/// list; an identifier naming no slot leaves the store unchanged.
pub open spec fn with_component<C>(s: Seq<RecordModel<C>>, e: Entity, c: C) -> Seq<RecordModel<C>> {
    if e.id < s.len() {
        s.update(e.id as int, RecordModel { components: s[e.id as int].components.push(c), ..s[e.id as int] })
    } else {
        s
    }
}

/// Store contents after an entity's parent slot is written.
pub open spec fn with_parent<C>(s: Seq<RecordModel<C>>, e: Entity, p: Entity) -> Seq<RecordModel<C>> {
    if e.id < s.len() {
        s.update(e.id as int, RecordModel { parent: Some(p), ..s[e.id as int] })
    } else {
        s
    }
}

/// Store contents after an entity's transform slot is written.
pub open spec fn with_transform<C>(s: Seq<RecordModel<C>>, e: Entity, t: LocalTransform) -> Seq<RecordModel<C>> {
    if e.id < s.len() {
        s.update(e.id as int, RecordModel { transform: Some(t), ..s[e.id as int] })
    } else {
        s
    }
}

/// The mutation contract a builder drives. The immediate [`World`] performs
/// each operation synchronously; the deferred command buffer records it and
/// models the contents the later replay will produce. Both describe their
/// effect over the same [`RecordModel`] sequence, so the two builder
/// variants cannot drift in behavior.
pub trait EntityStore<C>: Sized {
    /// The entity graph this store holds (for a deferred store: the graph
    /// its recorded log produces when applied to an empty world).
    spec fn contents(&self) -> Seq<RecordModel<C>>;

    /// The identifier the next created entity receives. The immediate store
    /// allocates the slot past its last one; the deferred store counts the
    /// provisional identifiers it has handed out.
    spec fn id_base(&self) -> int;

    /// Bulk-inserts one entity per bundle, all tagged alike, and returns
    /// their identifiers: consecutive, starting at the store's base.
    fn insert(&mut self, tags: Vec<u64>, bundles: Vec<Vec<C>>) -> (ids: Vec<Entity>)
        requires
            old(self).id_base() + bundles@.len() <= usize::MAX,
        ensures
            final(self).contents() == old(self).contents() + inserted_records(tags@, bundle_views(bundles@)),
            final(self).id_base() == old(self).id_base() + bundles@.len(),
            ids@.len() == bundles@.len(),
            forall|i: int| 0 <= i < ids@.len() ==> (#[trigger] ids@[i]).id == old(self).id_base() + i,
    ;

    /// Merges one component into an existing entity's component list.
    fn add_component(&mut self, entity: Entity, component: C)
        ensures
            final(self).contents() == with_component(old(self).contents(), entity, component),
            final(self).id_base() == old(self).id_base(),
    ;

    /// Writes an entity's parent slot.
    fn add_parent(&mut self, entity: Entity, parent: Parent)
        ensures
            final(self).contents() == with_parent(old(self).contents(), entity, parent.0),
            final(self).id_base() == old(self).id_base(),
    ;

    /// Writes an entity's transform slot.
    fn add_transform(&mut self, entity: Entity, transform: LocalTransform)
        ensures
            final(self).contents() == with_transform(old(self).contents(), entity, transform),
            final(self).id_base() == old(self).id_base(),
    ;
}

/// One entity slot of the immediate store.
pub struct EntityRecord<C> {
    pub tags: Vec<u64>,
    pub components: Vec<C>,
    pub parent: Option<Parent>,
    pub transform: Option<LocalTransform>,
}

impl<C> View for EntityRecord<C> {
    type V = RecordModel<C>;

    open spec fn view(&self) -> RecordModel<C> {
        RecordModel {
            tags: self.tags@,
            components: self.components@,
            parent: match self.parent {
                Some(p) => Some(p.0),
                None => None,
            },
            transform: self.transform,
        }
    }
}

/// The immediate store: a live world whose slots are indexed by the entity
/// identifiers it hands out.
pub struct World<C> {
    pub records: Vec<EntityRecord<C>>,
}

/// The models of a sequence of entity slots.
pub open spec fn record_views<C>(s: Seq<EntityRecord<C>>) -> Seq<RecordModel<C>> {
    s.map_values(|r: EntityRecord<C>| r@)
}

proof fn lemma_record_views_push<C>(s: Seq<EntityRecord<C>>, x: EntityRecord<C>)
    ensures
        record_views(s.push(x)) == record_views(s).push(x@),
{
    assert(record_views(s.push(x)) =~= record_views(s).push(x@));
}

proof fn lemma_record_views_update<C>(s: Seq<EntityRecord<C>>, i: int, x: EntityRecord<C>)
    requires
        0 <= i < s.len(),
    ensures
        record_views(s.update(i, x)) == record_views(s).update(i, x@),
{
    assert(record_views(s.update(i, x)) =~= record_views(s).update(i, x@));
}

impl<C> View for World<C> {
    type V = Seq<RecordModel<C>>;

    open spec fn view(&self) -> Seq<RecordModel<C>> {
        record_views(self.records@)
    }
}

impl<C> World<C> {
    /// An empty world holding no entities.
    pub fn new() -> (w: World<C>)
        ensures
            w@ == Seq::<RecordModel<C>>::empty(),
    {
        let w = World { records: Vec::new() };
        proof {
            assert(w@ =~= Seq::<RecordModel<C>>::empty());
        }
        w
    }

    /// How many entity slots the world holds.
    pub fn len(&self) -> (n: usize)
        ensures
            n == self@.len(),
    {
        self.records.len()
    }
}

/// Copies a vector of plain values element by element.
pub(crate) fn copy_values<T: Copy>(v: &Vec<T>) -> (r: Vec<T>)
    ensures
        r@ == v@,
{
    let mut r: Vec<T> = Vec::new();
    let mut i: usize = 0;
    while i < v.len()
        invariant
            i <= v.len(),
            r@ == v@.take(i as int),
        decreases v.len() - i,
    {
        r.push(v[i]);
        proof {
            assert(r@ =~= v@.take(i + 1 as int));
        }
        i = i + 1;
    }
    proof {
        assert(v@.take(v@.len() as int) =~= v@);
    }
    r
}

impl<C> World<C> {
    /// Bulk-inserts one entity per bundle, all tagged alike. Unlike the
    /// store-contract method this has no precondition: the slot indices a
    /// live world hands out always fit the machine word.
    pub fn insert_records(&mut self, tags: Vec<u64>, bundles: Vec<Vec<C>>) -> (ids: Vec<Entity>)
        ensures
            final(self)@ == old(self)@ + inserted_records(tags@, bundle_views(bundles@)),
            ids@.len() == bundles@.len(),
            forall|i: int| 0 <= i < ids@.len() ==> (#[trigger] ids@[i]).id == old(self)@.len() + i,
    {
        let ghost orig = self@;
        let ghost all = bundles@;
        let mut bundles = bundles;
        let mut ids: Vec<Entity> = Vec::new();
        while bundles.len() > 0
            invariant
                ids@.len() + bundles@.len() == all.len(),
                all.skip(ids@.len() as int) == bundles@,
                self@ == orig + inserted_records(tags@, bundle_views(all.take(ids@.len() as int))),
                forall|i: int| 0 <= i < ids@.len() ==> (#[trigger] ids@[i]).id == orig.len() + i,
            decreases bundles.len(),
        {
            let ghost done = ids@.len() as int;
            let b = bundles.remove(0);
            proof {
                assert(all.skip(done)[0] == all[done]);
                assert(b == all[done]);
                assert(all.skip(done).drop_first() =~= all.skip(done + 1));
            }
            let e = Entity { id: self.records.len() };
            proof {
                assert(self@.len() == self.records@.len());
                assert(e.id == orig.len() + done);
            }
            let rec = EntityRecord { tags: copy_values(&tags), components: b, parent: None, transform: None };
            let ghost prev = self.records@;
            self.records.push(rec);
            ids.push(e);
            proof {
                lemma_record_views_push(prev, rec);
                assert(rec@ == fresh_record(tags@, all[done]@));
                assert((orig + inserted_records(tags@, bundle_views(all.take(done)))).push(
                    fresh_record(tags@, all[done]@),
                ) =~= orig + inserted_records(tags@, bundle_views(all.take(done))).push(
                    fresh_record(tags@, all[done]@),
                ));
                assert(bundle_views(all.take(done + 1)) =~= bundle_views(all.take(done)).push(all[done]@));
                assert(inserted_records(tags@, bundle_views(all.take(done)).push(all[done]@)) =~= inserted_records(
                    tags@,
                    bundle_views(all.take(done)),
                ).push(fresh_record(tags@, all[done]@)));
                assert(self@ == orig + inserted_records(tags@, bundle_views(all.take(done + 1))));
            }
        }
        proof {
            assert(all.take(all.len() as int) =~= all);
            assert(self@ == orig + inserted_records(tags@, bundle_views(all)));
        }
        ids
    }
}

impl<C> EntityStore<C> for World<C> {
    open spec fn contents(&self) -> Seq<RecordModel<C>> {
        self@
    }

    open spec fn id_base(&self) -> int {
        self@.len() as int
    }

    fn insert(&mut self, tags: Vec<u64>, bundles: Vec<Vec<C>>) -> (ids: Vec<Entity>) {
        self.insert_records(tags, bundles)
    }

    fn add_component(&mut self, entity: Entity, component: C) {
        let ghost orig = self@;
        let ghost prev = self.records@;
        if entity.id < self.records.len() {
            let mut rec = self.records.remove(entity.id);
            rec.components.push(component);
            self.records.insert(entity.id, rec);
            proof {
                let i = entity.id as int;
                assert(self.records@ =~= prev.update(i, self.records@[i]));
                lemma_record_views_update(prev, i, self.records@[i]);
                assert(self.records@[i]@ == (RecordModel { components: orig[i].components.push(component), ..orig[i] }));
                assert(self@ == with_component(orig, entity, component));
            }
        }
    }

    fn add_parent(&mut self, entity: Entity, parent: Parent) {
        let ghost orig = self@;
        let ghost prev = self.records@;
        if entity.id < self.records.len() {
            let mut rec = self.records.remove(entity.id);
            rec.parent = Some(parent);
            self.records.insert(entity.id, rec);
            proof {
                let i = entity.id as int;
                assert(self.records@ =~= prev.update(i, self.records@[i]));
                lemma_record_views_update(prev, i, self.records@[i]);
                assert(self.records@[i]@ == (RecordModel { parent: Some(parent.0), ..orig[i] }));
                assert(self@ == with_parent(orig, entity, parent.0));
            }
        }
    }

    fn add_transform(&mut self, entity: Entity, transform: LocalTransform) {
        let ghost orig = self@;
        let ghost prev = self.records@;
        if entity.id < self.records.len() {
            let mut rec = self.records.remove(entity.id);
            rec.transform = Some(transform);
            self.records.insert(entity.id, rec);
            proof {
                let i = entity.id as int;
                assert(self.records@ =~= prev.update(i, self.records@[i]));
                lemma_record_views_update(prev, i, self.records@[i]);
                assert(self.records@[i]@ == (RecordModel { transform: Some(transform), ..orig[i] }));
                assert(self@ == with_transform(orig, entity, transform));
            }
        }
    }
}

} // verus!
