use world_builder::builder::{WorldBuilder, WorldBuilderSource};
use world_builder::entity::{BuildError, Entity, LocalTransform, Parent};
use world_builder::store::World;

#[test]
fn scenario_component_and_child() {
    let w: World<u32> = World::new();
    let b = w.build().entity().with(10).unwrap();
    let e1 = b.current_entity.unwrap();
    let b = b.with_children(|b: WorldBuilder<u32>| b.entity().with(20)).unwrap();
    assert_eq!(b.current_entity, Some(e1));
    assert!(b.parent_scope.is_empty());
    let w = b.world;
    assert_eq!(w.records.len(), 2);
    assert_eq!(w.records[0].components, vec![10]);
    assert_eq!(w.records[0].parent, None);
    assert_eq!(w.records[0].transform, None);
    assert_eq!(w.records[1].components, vec![20]);
    assert_eq!(w.records[1].parent, Some(Parent(e1)));
    assert_eq!(w.records[1].transform, Some(LocalTransform::identity()));
}

#[test]
fn three_level_hierarchy() {
    let w: World<u32> = World::new();
    let b = w.build().entity();
    let b = b
        .with_children(|b| {
            let b = b.entity();
            b.with_children(|b| Ok(b.entity()))
        })
        .unwrap();
    let w = b.world;
    assert_eq!(w.records.len(), 3);
    assert_eq!(w.records[0].parent, None);
    assert_eq!(w.records[0].transform, None);
    assert_eq!(w.records[1].parent, Some(Parent(Entity { id: 0 })));
    assert_eq!(w.records[1].transform, Some(LocalTransform::identity()));
    assert_eq!(w.records[2].parent, Some(Parent(Entity { id: 1 })));
    assert_eq!(w.records[2].transform, Some(LocalTransform::identity()));
}

#[test]
fn scope_restoration_at_every_depth() {
    let w: World<u32> = World::new();
    let b = w.build().entity();
    let root = b.current_entity.unwrap();
    let b = b
        .with_children(|b| {
            assert_eq!(b.current_entity, None);
            assert_eq!(b.parent_scope, vec![Entity { id: 0 }]);
            let b = b.entity();
            let b = b.with_children(|b| {
                assert_eq!(b.current_entity, None);
                assert_eq!(b.parent_scope, vec![Entity { id: 0 }, Entity { id: 1 }]);
                Ok(b.entity())
            })?;
            assert_eq!(b.current_entity, Some(Entity { id: 1 }));
            assert_eq!(b.parent_scope, vec![Entity { id: 0 }]);
            Ok(b)
        })
        .unwrap();
    assert_eq!(b.current_entity, Some(root));
    assert_eq!(b.parent_scope, Vec::new());
}

#[test]
fn bulk_entities_receive_no_linkage() {
    let w: World<u32> = World::new();
    let b = w.build().entity();
    let b = b
        .with_children(|b| Ok(b.entities(vec![vec![1], vec![2]])))
        .unwrap();
    let w = b.world;
    assert_eq!(w.records.len(), 3);
    assert_eq!(w.records[1].components, vec![1]);
    assert_eq!(w.records[1].parent, None);
    assert_eq!(w.records[1].transform, None);
    assert_eq!(w.records[2].components, vec![2]);
    assert_eq!(w.records[2].parent, None);
    assert_eq!(w.records[2].transform, None);
}

#[test]
fn bulk_entities_leave_cursor_untouched() {
    let w: World<u32> = World::new();
    let b = w.build().entity();
    let cur = b.current_entity;
    let b = b.entities(vec![vec![9]]);
    assert_eq!(b.current_entity, cur);
    assert!(b.parent_scope.is_empty());
}

#[test]
fn with_requires_current_entity() {
    let w: World<u32> = World::new();
    match w.build().with(1) {
        Err(e) => {
            assert_eq!(e, BuildError::NoCurrentEntity);
            assert_eq!(
                e.message(),
                "Cannot add a component without a current entity. Try creating an entity first."
            );
        }
        Ok(_) => panic!("expected the no-current-entity error"),
    }
}

#[test]
fn with_children_requires_current_entity() {
    let w: World<u32> = World::new();
    match w.build().with_children(|b| Ok(b)) {
        Err(e) => {
            assert_eq!(e, BuildError::ChildrenWithoutParent);
            assert_eq!(
                e.message(),
                "Cannot add children without a parent. Try creating an entity first."
            );
        }
        Ok(_) => panic!("expected the children-without-parent error"),
    }
}

#[test]
fn closure_error_propagates() {
    let w: World<u32> = World::new();
    let r = w.build().entity().with_children(|b: WorldBuilder<u32>| b.with(5));
    assert_eq!(r.err(), Some(BuildError::NoCurrentEntity));
}

#[test]
fn set_entity_resumes_without_linking() {
    let w: World<u32> = World::new();
    let b = w.build().entity();
    let e0 = b.current_entity.unwrap();
    let b = b.entity();
    let b = b.set_entity(e0).with(42).unwrap();
    assert_eq!(b.current_entity, Some(e0));
    assert_eq!(b.world.records[0].components, vec![42]);
    assert!(b.world.records[1].components.is_empty());
    assert_eq!(b.world.records[0].parent, None);
}

#[test]
fn entity_with_links_under_scope() {
    let w: World<u32> = World::new();
    let b = w.build().entity();
    let b = b.with_children(|b| Ok(b.entity_with(vec![1, 2]))).unwrap();
    let w = b.world;
    assert_eq!(w.records[1].components, vec![1, 2]);
    assert_eq!(w.records[1].parent, Some(Parent(Entity { id: 0 })));
    assert_eq!(w.records[1].transform, Some(LocalTransform::identity()));
}

#[test]
fn entity_with_makes_bundle_entity_current() {
    let w: World<u32> = World::new();
    let b = w.build().entity_with(vec![3, 4]);
    assert_eq!(b.current_entity, Some(Entity { id: 0 }));
    assert_eq!(b.world.records[0].components, vec![3, 4]);
    assert_eq!(b.world.records[0].parent, None);
}
