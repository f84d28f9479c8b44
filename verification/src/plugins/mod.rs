//! What a plugin implements and what it is handed.

pub mod behaviour_provider;
pub mod component_provider;
pub mod entity_type_provider;
pub mod flow_provider;
pub mod plugin;
pub mod plugin_context;
pub mod plugin_declaration;
pub mod relation_type_provider;
pub mod web_resource_provider;

pub use behaviour_provider::{
    ComponentBehaviourProvider, EntityBehaviourProvider, RelationBehaviourProvider,
};
pub use component_provider::ComponentProvider;
pub use entity_type_provider::EntityTypeProvider;
pub use flow_provider::FlowProvider;
pub use plugin::{Plugin, PluginError, PluginMetadata};
pub use plugin_context::PluginContext;
pub use plugin_declaration::{PluginDeclaration, PluginRegistration};
pub use relation_type_provider::RelationTypeProvider;
pub use web_resource_provider::WebResourceProvider;
