//! The capabilities of attaching behaviours to live instances.

use vstd::prelude::*;

use crate::model::instance::{ReactiveEntityInstance, ReactiveRelationInstance};

verus! {

/// A plugin's supply of behaviours for entities. The provider decides by
/// itself which instances its behaviours apply to, and takes a repeated
/// request as one.
pub trait EntityBehaviourProvider {
    fn add_behaviours(&self, entity_instance: &ReactiveEntityInstance);

    fn remove_behaviours(&self, entity_instance: &ReactiveEntityInstance);

    fn remove_behaviours_by_id(&self, id: uuid::Uuid);
}

/// A plugin's supply of behaviours for relations. The provider decides by
/// itself which instances its behaviours apply to, and takes a repeated
/// request as one.
pub trait RelationBehaviourProvider {
    fn add_behaviours(&self, relation_instance: &ReactiveRelationInstance);

    fn remove_behaviours(&self, relation_instance: &ReactiveRelationInstance);

    fn remove_behaviours_by_key(&self, edge_key: &indradb::EdgeKey);
}

/// A plugin's supply of behaviours that go with a component, on entities
/// and on relations alike.
pub trait ComponentBehaviourProvider {
    fn add_behaviours_to_entity(&self, entity_instance: &ReactiveEntityInstance);

    fn add_behaviours_to_relation(&self, relation_instance: &ReactiveRelationInstance);

    fn remove_behaviours_from_entity(&self, entity_instance: &ReactiveEntityInstance);

    fn remove_behaviours_from_relation(&self, relation_instance: &ReactiveRelationInstance);

    fn remove_behaviours_by_id(&self, id: uuid::Uuid);

    fn remove_behaviours_by_key(&self, edge_key: &indradb::EdgeKey);
}

} // verus!
