//! What the registries offer, and the values that pass through them.

pub mod component_manager;
pub mod entity_type_manager;
pub mod relation_type_manager;
pub mod system_event;

pub use component_manager::ComponentImportError;
pub use entity_type_manager::{EntityTypeImportError, EntityTypeManager};
pub use relation_type_manager::RelationTypeImportError;
pub use system_event::{SystemEvent, SystemEventManager, SystemEventView};
