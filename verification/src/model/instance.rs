//! Live instances, as far as the behaviour managers deal with them.

use vstd::prelude::*;

verus! {

/// The identity of an entity in the graph store: `uuid::Uuid`.
#[verifier::external_type_specification]
#[verifier::external_body]
pub struct ExUuid(uuid::Uuid);

/// The identity of a relation in the graph store: `indradb::EdgeKey`, which
/// holds the two ends and the type of the edge.
#[verifier::external_type_specification]
#[verifier::external_body]
pub struct ExEdgeKey(indradb::EdgeKey);

/// A live entity that behaviours may be attached to.
pub struct ReactiveEntityInstance {
    /// The identity of the entity.
    pub id: uuid::Uuid,
    /// The name of its entity type.
    pub entity_type: String,
}

/// A live relation that behaviours may be attached to.
pub struct ReactiveRelationInstance {
    /// The identity of the relation.
    pub key: indradb::EdgeKey,
    /// The name of its relation type.
    pub relation_type: String,
}

} // verus!
