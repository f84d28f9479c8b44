//! The capability of contributing entity types.

use vstd::prelude::*;

use crate::model::entity_type::EntityType;

verus! {

/// A plugin's supply of entity types.
pub trait EntityTypeProvider {
    /// The entity types that the plugin contributes.
    fn get_entity_types(&self) -> Vec<EntityType>;
}

} // verus!
