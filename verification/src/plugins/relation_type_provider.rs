//! The capability of contributing relation types.

use vstd::prelude::*;

use crate::model::relation_type::RelationType;

verus! {

/// A plugin's supply of relation types.
pub trait RelationTypeProvider {
    /// The relation types that the plugin contributes.
    fn get_relation_types(&self) -> Vec<RelationType>;
}

} // verus!
