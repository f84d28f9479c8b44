//! What stands between the registries and the plugins.

pub mod component_manager_impl;
pub mod config;
pub mod entity_type_manager_impl;
pub mod proxies;
pub mod proxy;
pub mod registrar;
pub mod relation_type_manager_impl;

pub use component_manager_impl::ComponentManagerImpl;
pub use config::{PluginConfig, PluginsConfig};
pub use entity_type_manager_impl::EntityTypeManagerImpl;
pub use proxies::PluginProxies;
pub use proxy::PluginProxy;
pub use registrar::PluginRegistrar;
pub use relation_type_manager_impl::RelationTypeManagerImpl;
