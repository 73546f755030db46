//! The deferred store: a command buffer that records mutation operations and
//! replays them against a world later.
//!
//! While recording, the buffer models the contents a replay onto an empty
//! world will produce, so a builder driving it satisfies exactly the same
//! [`EntityStore`](crate::store::EntityStore) contract as the immediate
//! world. Entity identifiers handed out during recording are provisional:
//! they name slots of the world the buffer is eventually applied to.

use vstd::prelude::*;

use crate::entity::{Entity, LocalTransform, Parent};
use crate::store::{
    bundle_views, inserted_records, with_component, with_parent, with_transform, EntityStore,
    RecordModel, World,
};

verus! {

/// One recorded mutation.
pub enum StoreOp<C> {
    /// Bulk-insert one entity per bundle, all with the given tags.
    Insert { tags: Vec<u64>, bundles: Vec<Vec<C>> },
    /// Merge one component into an entity's component list.
    AddComponent { entity: Entity, component: C },
    /// Write an entity's parent slot.
    AddParent { entity: Entity, parent: Parent },
    /// Write an entity's transform slot.
    AddTransform { entity: Entity, transform: LocalTransform },
}

/// Model of one recorded mutation.
#[verifier::ext_equal]
pub ghost enum OpModel<C> {
    Insert { tags: Seq<u64>, bundles: Seq<Seq<C>> },
    AddComponent { entity: Entity, component: C },
    AddParent { entity: Entity, parent: Entity },
    AddTransform { entity: Entity, transform: LocalTransform },
}

impl<C> View for StoreOp<C> {
    type V = OpModel<C>;

    open spec fn view(&self) -> OpModel<C> {
        match self {
            StoreOp::Insert { tags, bundles } => OpModel::Insert {
                tags: tags@,
                bundles: bundle_views(bundles@),
            },
            StoreOp::AddComponent { entity, component } => OpModel::AddComponent {
                entity: *entity,
                component: *component,
            },
            StoreOp::AddParent { entity, parent } => OpModel::AddParent {
                entity: *entity,
                parent: parent.0,
            },
            StoreOp::AddTransform { entity, transform } => OpModel::AddTransform {
                entity: *entity,
                transform: *transform,
            },
        }
    }
}

/// The models of a sequence of recorded operations.
pub open spec fn op_views<C>(s: Seq<StoreOp<C>>) -> Seq<OpModel<C>> {
    s.map_values(|op: StoreOp<C>| op@)
}

proof fn lemma_op_views_push<C>(s: Seq<StoreOp<C>>, x: StoreOp<C>)
    ensures
        op_views(s.push(x)) == op_views(s).push(x@),
{
    assert(op_views(s.push(x)) =~= op_views(s).push(x@));
}

/// Store contents after one recorded operation is performed.
pub open spec fn apply_op<C>(s: Seq<RecordModel<C>>, op: OpModel<C>) -> Seq<RecordModel<C>> {
    match op {
        OpModel::Insert { tags, bundles } => s + inserted_records(tags, bundles),
        OpModel::AddComponent { entity, component } => with_component(s, entity, component),
        OpModel::AddParent { entity, parent } => with_parent(s, entity, parent),
        OpModel::AddTransform { entity, transform } => with_transform(s, entity, transform),
    }
}

/// Store contents after a recorded log is performed in call order, starting
/// from the given base contents.
pub open spec fn replay<C>(ops: Seq<OpModel<C>>, base: Seq<RecordModel<C>>) -> Seq<RecordModel<C>>
    decreases ops.len(),
{
    if ops.len() == 0 {
        base
    } else {
        replay(ops.drop_first(), apply_op(base, ops.first()))
    }
}

/// Appending one operation to a log replays as performing it last.
pub proof fn lemma_replay_push<C>(ops: Seq<OpModel<C>>, op: OpModel<C>, base: Seq<RecordModel<C>>)
    ensures
        replay(ops.push(op), base) == apply_op(replay(ops, base), op),
    decreases ops.len(),
{
    assert(ops.push(op).len() == ops.len() + 1);
    assert(replay(ops.push(op), base) == replay(
        ops.push(op).drop_first(),
        apply_op(base, ops.push(op).first()),
    ));
    if ops.len() == 0 {
        assert(ops.push(op).first() == op);
        assert(ops.push(op).drop_first() =~= Seq::<OpModel<C>>::empty());
        assert(replay(Seq::<OpModel<C>>::empty(), apply_op(base, op)) == apply_op(base, op));
        assert(replay(ops, base) == base);
    } else {
        assert(ops.push(op).first() == ops.first());
        assert(ops.push(op).drop_first() =~= ops.drop_first().push(op));
        lemma_replay_push(ops.drop_first(), op, apply_op(base, ops.first()));
        assert(replay(ops, base) == replay(ops.drop_first(), apply_op(base, ops.first())));
    }
}

/// The deferred store: a replay log in call order, together with the count
/// of provisional entity identifiers handed out so far.
pub struct CommandBuffer<C> {
    pub ops: Vec<StoreOp<C>>,
    pub entity_count: usize,
}

impl<C> View for CommandBuffer<C> {
    type V = Seq<OpModel<C>>;

    open spec fn view(&self) -> Seq<OpModel<C>> {
        op_views(self.ops@)
    }
}

impl<C> CommandBuffer<C> {
    /// An empty buffer recording nothing.
    pub fn new() -> (c: CommandBuffer<C>)
        ensures
            c@ == Seq::<OpModel<C>>::empty(),
            c.id_base() == 0,
    {
        let c = CommandBuffer { ops: Vec::new(), entity_count: 0 };
        proof {
            assert(c@ =~= Seq::<OpModel<C>>::empty());
        }
        c
    }

    /// Performs the recorded log against a world, in call order, and returns
    /// the world. Applied to a fresh world, this produces exactly the
    /// contents the buffer predicted while recording.
    pub fn apply(self, w: World<C>) -> (r: World<C>)
        ensures
            r@ == replay(self@, w@),
            w@ == Seq::<RecordModel<C>>::empty() ==> r@ == self.contents(),
    {
        let ghost log = self@;
        let ghost base = w@;
        let mut ops = self.ops;
        let mut world = w;
        while ops.len() > 0
            invariant
                replay(op_views(ops@), world@) == replay(log, base),
            decreases ops.len(),
        {
            let ghost remaining = op_views(ops@);
            let op = ops.remove(0);
            proof {
                assert(remaining[0] == op@);
                assert(op_views(ops@) =~= remaining.drop_first());
            }
            match op {
                StoreOp::Insert { tags, bundles } => {
                    let _ = world.insert_records(tags, bundles);
                },
                StoreOp::AddComponent { entity, component } => {
                    world.add_component(entity, component);
                },
                StoreOp::AddParent { entity, parent } => {
                    world.add_parent(entity, parent);
                },
                StoreOp::AddTransform { entity, transform } => {
                    world.add_transform(entity, transform);
                },
            }
        }
        world
    }
}

impl<C> EntityStore<C> for CommandBuffer<C> {
    open spec fn contents(&self) -> Seq<RecordModel<C>> {
        replay(self@, Seq::<RecordModel<C>>::empty())
    }

    open spec fn id_base(&self) -> int {
        self.entity_count as int
    }

    fn insert(&mut self, tags: Vec<u64>, bundles: Vec<Vec<C>>) -> (ids: Vec<Entity>) {
        let ghost before = self@;
        let n = bundles.len();
        let base = self.entity_count;
        let mut ids: Vec<Entity> = Vec::new();
        let mut i: usize = 0;
        while i < n
            invariant
                i <= n,
                base + n <= usize::MAX,
                ids@.len() == i,
                forall|j: int| 0 <= j < i ==> (#[trigger] ids@[j]).id == base + j,
            decreases n - i,
        {
            ids.push(Entity { id: base + i });
            i = i + 1;
        }
        self.entity_count = base + n;
        let ghost op_model = OpModel::Insert { tags: tags@, bundles: bundle_views(bundles@) };
        let ghost prev_ops = self.ops@;
        self.ops.push(StoreOp::Insert { tags, bundles });
        proof {
            lemma_op_views_push(prev_ops, self.ops@.last());
            lemma_replay_push(before, op_model, Seq::<RecordModel<C>>::empty());
        }
        ids
    }

    fn add_component(&mut self, entity: Entity, component: C) {
        let ghost before = self@;
        self.ops.push(StoreOp::AddComponent { entity, component });
        proof {
            lemma_op_views_push(old(self).ops@, StoreOp::AddComponent { entity, component });
            lemma_replay_push(before, OpModel::AddComponent { entity, component }, Seq::<RecordModel<C>>::empty());
        }
    }

    fn add_parent(&mut self, entity: Entity, parent: Parent) {
        let ghost before = self@;
        self.ops.push(StoreOp::AddParent { entity, parent });
        proof {
            lemma_op_views_push(old(self).ops@, StoreOp::AddParent { entity, parent });
            lemma_replay_push(before, OpModel::AddParent { entity, parent: parent.0 }, Seq::<RecordModel<C>>::empty());
        }
    }

    fn add_transform(&mut self, entity: Entity, transform: LocalTransform) {
        let ghost before = self@;
        self.ops.push(StoreOp::AddTransform { entity, transform });
        proof {
            lemma_op_views_push(old(self).ops@, StoreOp::AddTransform { entity, transform });
            lemma_replay_push(before, OpModel::AddTransform { entity, transform }, Seq::<RecordModel<C>>::empty());
        }
    }
}

} // verus!
