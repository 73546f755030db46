use world_builder::builder::{CommandBufferBuilderSource, WorldBuilderSource};
use world_builder::command_buffer::CommandBuffer;
use world_builder::entity::{BuildError, Entity, LocalTransform, Parent};
use world_builder::store::World;

fn drive_immediate() -> World<u32> {
    let w: World<u32> = World::new();
    let b = w.build().entity().with(1).unwrap();
    let b = b
        .with_children(|b| {
            let b = b.entity().with(2).unwrap();
            let b = b.entities(vec![vec![7], vec![8]]);
            let b = b.entity_with(vec![4, 5]);
            b.with(3)
        })
        .unwrap();
    b.entity().world
}

fn drive_deferred() -> CommandBuffer<u32> {
    let cb: CommandBuffer<u32> = CommandBuffer::new();
    let b = cb.build().entity().with(1).unwrap();
    let b = b
        .with_children(|b| {
            let b = b.entity().with(2).unwrap();
            let b = b.entities(Vec::new(), vec![vec![7], vec![8]]);
            let b = b.entity_with(vec![4, 5]);
            b.with(3)
        })
        .unwrap();
    b.entity().command_buffer
}

#[test]
fn deferred_replay_matches_immediate() {
    let wi = drive_immediate();
    let wd = drive_deferred().apply(World::new());
    assert_eq!(wi.records.len(), wd.records.len());
    for i in 0..wi.records.len() {
        assert_eq!(wi.records[i].tags, wd.records[i].tags);
        assert_eq!(wi.records[i].components, wd.records[i].components);
        assert_eq!(wi.records[i].parent, wd.records[i].parent);
        assert_eq!(wi.records[i].transform, wd.records[i].transform);
    }
}

#[test]
fn deferred_hierarchy_links_after_replay() {
    let cb: CommandBuffer<u32> = CommandBuffer::new();
    let b = cb.build().entity();
    let root = b.current_entity.unwrap();
    let b = b.with_children(|b| b.entity().with(20)).unwrap();
    assert_eq!(b.current_entity, Some(root));
    let w = b.command_buffer.apply(World::new());
    assert_eq!(w.records.len(), 2);
    assert_eq!(w.records[1].components, vec![20]);
    assert_eq!(w.records[1].parent, Some(Parent(root)));
    assert_eq!(w.records[1].transform, Some(LocalTransform::identity()));
}

#[test]
fn provisional_identifiers_are_consecutive() {
    let cb: CommandBuffer<u32> = CommandBuffer::new();
    let b = cb.build().entity();
    assert_eq!(b.current_entity, Some(Entity { id: 0 }));
    let b = b.entity();
    assert_eq!(b.current_entity, Some(Entity { id: 1 }));
    assert_eq!(b.command_buffer.entity_count, 2);
    let w = b.command_buffer.apply(World::new());
    assert_eq!(w.records.len(), 2);
}

#[test]
fn tags_are_recorded_and_applied() {
    let cb: CommandBuffer<u32> = CommandBuffer::new();
    let b = cb.build().entities(vec![5, 6], vec![vec![1], vec![2]]);
    let w = b.command_buffer.apply(World::new());
    assert_eq!(w.records.len(), 2);
    assert_eq!(w.records[0].tags, vec![5, 6]);
    assert_eq!(w.records[0].components, vec![1]);
    assert_eq!(w.records[0].parent, None);
    assert_eq!(w.records[1].tags, vec![5, 6]);
    assert_eq!(w.records[1].components, vec![2]);
    assert_eq!(w.records[1].parent, None);
}

#[test]
fn replay_on_non_fresh_world_shifts_slots() {
    let w: World<u32> = World::new();
    let b = w.build().entity().with(1).unwrap();
    let w = b.world;
    let cb: CommandBuffer<u32> = CommandBuffer::new();
    let b = cb.build().entity().with(2).unwrap();
    let w2 = b.command_buffer.apply(w);
    // The recorded provisional identifier named slot 0, so on a non-fresh
    // world the component lands on the pre-existing entity: provisional
    // identifiers are only faithful against a fresh world.
    assert_eq!(w2.records.len(), 2);
    assert_eq!(w2.records[0].components, vec![1, 2]);
    assert_eq!(w2.records[1].components, Vec::<u32>::new());
}

#[test]
fn deferred_with_requires_current_entity() {
    let cb: CommandBuffer<u32> = CommandBuffer::new();
    match cb.build().with(1) {
        Err(e) => assert_eq!(e, BuildError::NoCurrentEntity),
        Ok(_) => panic!("expected the no-current-entity error"),
    }
}

#[test]
fn deferred_with_children_requires_current_entity() {
    let cb: CommandBuffer<u32> = CommandBuffer::new();
    match cb.build().with_children(|b| Ok(b)) {
        Err(e) => assert_eq!(e, BuildError::ChildrenWithoutParent),
        Ok(_) => panic!("expected the children-without-parent error"),
    }
}

#[test]
fn empty_buffer_applies_to_nothing() {
    let cb: CommandBuffer<u32> = CommandBuffer::new();
    let w = cb.apply(World::new());
    assert_eq!(w.records.len(), 0);
}
