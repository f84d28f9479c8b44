//! The registries and managers.

pub mod component_behaviour_manager_impl;
pub mod component_manager_impl;
pub mod entity_behaviour_manager_impl;
pub mod entity_type_manager_impl;
pub mod plugin_registry_impl;
pub mod provider_managers;
pub mod relation_behaviour_manager_impl;
pub mod relation_type_manager_impl;

pub use component_behaviour_manager_impl::ComponentBehaviourManagerImpl;
pub use component_manager_impl::ComponentManagerImpl;
pub use entity_behaviour_manager_impl::EntityBehaviourManagerImpl;
pub use entity_type_manager_impl::{
    create_entity_types_storage, EntityTypeManagerImpl, EntityTypesStorage,
};
pub use plugin_registry_impl::{
    OpenedLibrary, PhaseReport, PluginLibraries, PluginLoadReport, PluginRegistryImpl,
    ShutdownPhase,
};
pub use provider_managers::{ReactiveFlowManagerImpl, WebResourceManagerImpl};
pub use relation_behaviour_manager_impl::{
    create_relation_behaviour_providers, RelationBehaviourManagerImpl, RelationBehaviourProviders,
};
pub use relation_type_manager_impl::{
    create_relation_type_storage, RelationTypeManagerImpl, RelationTypes,
};
