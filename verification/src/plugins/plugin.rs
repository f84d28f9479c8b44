//! The interface of a plugin.

use vstd::prelude::*;

use crate::plugins::behaviour_provider::{
    ComponentBehaviourProvider, EntityBehaviourProvider, RelationBehaviourProvider,
};
use crate::plugins::component_provider::ComponentProvider;
use crate::plugins::entity_type_provider::EntityTypeProvider;
use crate::plugins::flow_provider::FlowProvider;
use crate::plugins::plugin_context::PluginContext;
use crate::plugins::relation_type_provider::RelationTypeProvider;
use crate::plugins::web_resource_provider::WebResourceProvider;

verus! {

/// Why a plugin, or the loading of one, failed.
#[derive(Debug, PartialEq, Eq)]
pub enum PluginError {
    NoComponentProvider,
    NoEntityTypeProvider,
    NoRelationTypeProvider,
    NoComponentBehaviourProvider,
    NoEntityBehaviourProvider,
    NoRelationBehaviourProvider,
    NoFlowProvider,
    NoWebResourceProvider,
    /// The library could not be opened, or it declares no plugin.
    PluginCreationError,
    /// The plugin failed to initialize, or no plugin of that name is loaded.
    InitializationError,
    /// The plugin failed after initialization, or no plugin of that name is
    /// loaded.
    PostInitializationError,
    /// The plugin failed before shutdown, or no plugin of that name is
    /// loaded.
    PreShutdownError,
    /// The plugin failed to shut down, or no plugin of that name is loaded.
    ShutdownError,
    /// Any other failure, in words.
    Other { message: String },
}

/// What a plugin says of itself.
#[derive(Debug, PartialEq, Eq)]
pub struct PluginMetadata {
    pub name: String,
    pub description: String,
    pub version: String,
}

/// A plugin: a unit of extension that goes through four phases (`init`,
/// `post_init`, `pre_shutdown`, `shutdown`) and may supply providers of
/// eight kinds. A plugin that supplies no provider of a kind answers with
/// an error there; that is no failure of the plugin.
pub trait Plugin {
    type Components: ComponentProvider;

    type EntityTypes: EntityTypeProvider;

    type RelationTypes: RelationTypeProvider;

    type ComponentBehaviours: ComponentBehaviourProvider;

    type EntityBehaviours: EntityBehaviourProvider;

    type RelationBehaviours: RelationBehaviourProvider;

    type Flows: FlowProvider;

    type WebResources: WebResourceProvider;

    fn metadata(&self) -> Result<PluginMetadata, PluginError>;

    fn init(&self) -> Result<(), PluginError>;

    fn post_init(&self) -> Result<(), PluginError>;

    fn pre_shutdown(&self) -> Result<(), PluginError>;

    fn shutdown(&self) -> Result<(), PluginError>;

    /// Hands the plugin the registries that it may query and fill. The
    /// plugin works on them until it returns.
    fn set_context(&self, context: &mut PluginContext) -> Result<(), PluginError>;

    fn get_component_provider(&self) -> Result<Self::Components, PluginError>;

    fn get_entity_type_provider(&self) -> Result<Self::EntityTypes, PluginError>;

    fn get_relation_type_provider(&self) -> Result<Self::RelationTypes, PluginError>;

    fn get_component_behaviour_provider(&self) -> Result<Self::ComponentBehaviours, PluginError>;

    fn get_entity_behaviour_provider(&self) -> Result<Self::EntityBehaviours, PluginError>;

    fn get_relation_behaviour_provider(&self) -> Result<Self::RelationBehaviours, PluginError>;

    fn get_flow_provider(&self) -> Result<Self::Flows, PluginError>;

    fn get_web_resource_provider(&self) -> Result<Self::WebResources, PluginError>;
}

} // verus!
