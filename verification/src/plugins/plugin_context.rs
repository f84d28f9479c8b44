//! What a plugin is handed to work on.

use vstd::prelude::*;

use crate::implementation::component_manager_impl::ComponentManagerImpl;
use crate::implementation::entity_type_manager_impl::EntityTypeManagerImpl;
use crate::implementation::relation_type_manager_impl::RelationTypeManagerImpl;
use crate::plugin::component_manager_impl::ComponentManagerImpl as ComponentFacade;
use crate::plugin::entity_type_manager_impl::EntityTypeManagerImpl as EntityTypeFacade;
use crate::plugin::relation_type_manager_impl::RelationTypeManagerImpl as RelationTypeFacade;

verus! {

/// The type registries that a plugin may query and fill, each behind the
/// facade that is made for plugins.
pub struct PluginContext {
    pub component_manager: ComponentFacade,
    pub entity_type_manager: EntityTypeFacade<EntityTypeManagerImpl>,
    pub relation_type_manager: RelationTypeFacade,
}

impl PluginContext {
    /// A context over the given registries.
    pub fn new(
        component_manager: ComponentManagerImpl,
        entity_type_manager: EntityTypeManagerImpl,
        relation_type_manager: RelationTypeManagerImpl,
    ) -> (context: Self)
        ensures
            context.component_manager.inner() == component_manager,
            context.entity_type_manager.inner() == entity_type_manager,
            context.relation_type_manager.inner() == relation_type_manager,
    {
        PluginContext {
            component_manager: ComponentFacade::new(component_manager),
            entity_type_manager: EntityTypeFacade::new(entity_type_manager),
            relation_type_manager: RelationTypeFacade::new(relation_type_manager),
        }
    }

    /// Takes the context apart and hands back the registries.
    pub fn into_parts(self) -> (parts: (
        ComponentManagerImpl,
        EntityTypeManagerImpl,
        RelationTypeManagerImpl,
    ))
        ensures
            parts.0 == self.component_manager.inner(),
            parts.1 == self.entity_type_manager.inner(),
            parts.2 == self.relation_type_manager.inner(),
    {
        (
            self.component_manager.into_inner(),
            self.entity_type_manager.into_inner(),
            self.relation_type_manager.into_inner(),
        )
    }
}

} // verus!
