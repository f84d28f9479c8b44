//! The entity type registry as plugins see it.

use vstd::prelude::*;

use crate::api::entity_type_manager::{
    entity_types_identified, entity_types_matching, entity_types_without, find_entity_type,
    registered_entity_type, EntityTypeManager,
};
use crate::api::system_event::SystemEventView;
use crate::identifier::valid_identifier;
use crate::implementation::component_manager_impl::ComponentManagerImpl;
use crate::model::entity_type::{entity_type_names, EntityType, EntityTypeView};
use crate::model::property_type::{Extension, PropertyType};

verus! {

/// A facade over an entity type registry. A plugin may look types up,
/// create and delete them, and move them in and out; it may not register
/// providers.
pub struct EntityTypeManagerImpl<M: EntityTypeManager> {
    entity_type_manager: M,
}

impl<M: EntityTypeManager> EntityTypeManagerImpl<M> {
    /// The registry behind the facade.
    pub closed spec fn inner(&self) -> M {
        self.entity_type_manager
    }

    /// A facade over `entity_type_manager`.
    pub fn new(entity_type_manager: M) -> (facade: Self)
        ensures
            facade.inner() == entity_type_manager,
    {
        EntityTypeManagerImpl { entity_type_manager }
    }

    /// Takes the facade away and hands back the registry behind it.
    pub fn into_inner(self) -> (entity_type_manager: M)
        ensures
            entity_type_manager == self.inner(),
    {
        self.entity_type_manager
    }

    /// The registry behind the facade, to check the ends of relation types
    /// against.
    pub fn registry(&self) -> (entity_type_manager: &M)
        ensures
            *entity_type_manager == self.inner(),
    {
        &self.entity_type_manager
    }

    /// All stored records, in the order of their registration.
    pub fn get_entity_types(&self) -> (all: Vec<EntityType>)
        ensures
            all.deep_view() == self.inner().entity_types(),
            entity_types_identified(self.inner().entity_types()),
    {
        self.entity_type_manager.get_entity_types()
    }

    /// Whether a record called `name` is stored.
    pub fn has(&self, name: String) -> (known: bool)
        ensures
            known == entity_type_names(self.inner().entity_types()).contains(name@),
            known == find_entity_type(self.inner().entity_types(), name@) is Some,
    {
        self.entity_type_manager.has(name)
    }

    /// The first stored record called `name`.
    pub fn get(&self, name: String) -> (found: Option<EntityType>)
        ensures
            match found {
                Some(record) => find_entity_type(self.inner().entity_types(), name@) == Some(
                    record@,
                ) && record@.name == name@ && record@.identifier == name@,
                None => find_entity_type(self.inner().entity_types(), name@) is None,
            },
    {
        self.entity_type_manager.get(name)
    }

    /// The stored records whose name the wildcard pattern `search` matches,
    /// in the order of their registration.
    pub fn find(&self, search: String) -> (found: Vec<EntityType>)
        ensures
            found.deep_view() == entity_types_matching(self.inner().entity_types(), search@),
    {
        self.entity_type_manager.find(search)
    }

    /// Builds a record without behaviours of the given parts and registers
    /// it where `name` is an identifier; where it is none, nothing is stored
    /// or told.
    pub fn create(
        &mut self,
        known: &ComponentManagerImpl,
        name: String,
        group: String,
        components: Vec<String>,
        properties: Vec<PropertyType>,
        extensions: Vec<Extension>,
    )
        ensures
            final(self).inner().entity_types() == if valid_identifier(name@) {
                old(self).inner().entity_types().push(
                    registered_entity_type(
                        EntityTypeView {
                            name: name@,
                            group: group@,
                            description: Seq::<char>::empty(),
                            components: components.deep_view(),
                            behaviours: Seq::<Seq<char>>::empty(),
                            properties: properties.deep_view(),
                            extensions: extensions.deep_view(),
                            identifier: Seq::<char>::empty(),
                        },
                        known.components(),
                    ),
                )
            } else {
                old(self).inner().entity_types()
            },
            final(self).inner().emitted() == if valid_identifier(name@) {
                old(self).inner().emitted().push(SystemEventView::EntityTypeCreated(name@))
            } else {
                old(self).inner().emitted()
            },
    {
        let behaviours: Vec<String> = Vec::new();
        assert(behaviours.deep_view() =~= Seq::<Seq<char>>::empty());
        self.entity_type_manager.create(
            known,
            name,
            group,
            components,
            behaviours,
            properties,
            extensions,
        );
    }

    /// Removes every record called `name`, and tells of the deletion
    /// whether or not there was one.
    pub fn delete(&mut self, name: String)
        ensures
            final(self).inner().entity_types() == entity_types_without(
                old(self).inner().entity_types(),
                name@,
            ),
            final(self).inner().emitted() == old(self).inner().emitted().push(
                SystemEventView::EntityTypeDeleted(name@),
            ),
    {
        self.entity_type_manager.delete(name);
    }

    /// Registers a record that was read from a file, where there is one and
    /// its name is an identifier. A plugin is not told how the import went.
    pub fn import(&mut self, components: &ComponentManagerImpl, decoded: Option<EntityType>)
        ensures
            final(self).inner().entity_types() == if decoded is Some && valid_identifier(
                decoded->0@.name,
            ) {
                old(self).inner().entity_types().push(
                    registered_entity_type(decoded->0@, components.components()),
                )
            } else {
                old(self).inner().entity_types()
            },
            final(self).inner().emitted() == if decoded is Some && valid_identifier(
                decoded->0@.name,
            ) {
                old(self).inner().emitted().push(
                    SystemEventView::EntityTypeCreated(decoded->0@.name),
                )
            } else {
                old(self).inner().emitted()
            },
    {
        let _ = self.entity_type_manager.import(components, decoded);
    }

    /// The record to write where the type called `name` is exported: the
    /// first stored record of that name, if there is one.
    pub fn export(&self, name: String) -> (exported: Option<EntityType>)
        ensures
            match exported {
                Some(record) => find_entity_type(self.inner().entity_types(), name@) == Some(
                    record@,
                ) && record@.name == name@ && record@.identifier == name@,
                None => find_entity_type(self.inner().entity_types(), name@) is None,
            },
    {
        self.entity_type_manager.export(name)
    }
}

} // verus!
