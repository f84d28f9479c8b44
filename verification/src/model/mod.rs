//! The records that the registries store.

pub mod component;
pub mod entity_type;
pub mod instance;
pub mod property_type;
pub mod relation_type;

pub use component::{
    component_names, composed_properties, find_component, Component, ComponentView,
};
pub use entity_type::{entity_type_names, EntityType, EntityTypeBuilder, EntityTypeView};
pub use instance::{ReactiveEntityInstance, ReactiveRelationInstance};
pub use property_type::{
    clone_extensions, clone_names, clone_properties, DataType, Extension, ExtensionView,
    PropertyType, PropertyTypeView, SocketType,
};
pub use relation_type::{relation_names, RelationType, RelationTypeView};
