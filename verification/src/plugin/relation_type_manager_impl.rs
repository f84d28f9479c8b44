//! The relation type registry as plugins see it.

use vstd::prelude::*;

use crate::api::entity_type_manager::EntityTypeManager;
use crate::api::relation_type_manager::{
    find_relation_type, find_relation_type_starts_with, relation_events_with,
    relation_types_identified, relation_types_matching, relation_types_with,
    relation_types_without,
};
use crate::api::system_event::SystemEventView;
use crate::implementation::component_manager_impl::ComponentManagerImpl;
use crate::implementation::relation_type_manager_impl::RelationTypeManagerImpl as RelationTypeRegistry;
use crate::model::property_type::{Extension, PropertyType};
use crate::model::relation_type::{relation_names, RelationType, RelationTypeView};

verus! {

/// A facade over the relation type registry. A plugin may look types up,
/// create and delete them, and move them in and out; it may not register
/// providers.
pub struct RelationTypeManagerImpl {
    relation_type_manager: RelationTypeRegistry,
}

impl RelationTypeManagerImpl {
    /// The registry behind the facade.
    pub closed spec fn inner(&self) -> RelationTypeRegistry {
        self.relation_type_manager
    }

    /// A facade over `relation_type_manager`.
    pub fn new(relation_type_manager: RelationTypeRegistry) -> (facade: Self)
        ensures
            facade.inner() == relation_type_manager,
    {
        RelationTypeManagerImpl { relation_type_manager }
    }

    /// Takes the facade away and hands back the registry behind it.
    pub fn into_inner(self) -> (relation_type_manager: RelationTypeRegistry)
        ensures
            relation_type_manager == self.inner(),
    {
        self.relation_type_manager
    }

    /// All stored records, in the order of their registration.
    pub fn get_relation_types(&self) -> (all: Vec<RelationType>)
        ensures
            all.deep_view() == self.inner().relation_types(),
            relation_types_identified(self.inner().relation_types()),
    {
        self.relation_type_manager.get_relation_types()
    }

    /// Whether a record called `name` is stored.
    pub fn has(&self, name: String) -> (known: bool)
        ensures
            known == relation_names(self.inner().relation_types()).contains(name@),
            known == find_relation_type(self.inner().relation_types(), name@) is Some,
    {
        self.relation_type_manager.has(name)
    }

    /// Whether a record stands for the relation called `name`: one of that
    /// name, or one whose name `name` begins with.
    pub fn has_starts_with(&self, name: String) -> (known: bool)
        ensures
            known == find_relation_type_starts_with(self.inner().relation_types(), name@) is Some,
    {
        self.relation_type_manager.has_starts_with(name)
    }

    /// The first stored record called `name`.
    pub fn get(&self, name: String) -> (found: Option<RelationType>)
        ensures
            match found {
                Some(record) => find_relation_type(self.inner().relation_types(), name@) == Some(
                    record@,
                ) && record@.name == name@ && record@.identifier == name@,
                None => find_relation_type(self.inner().relation_types(), name@) is None,
            },
    {
        self.relation_type_manager.get(name)
    }

    /// The record that stands for the relation called `name`: the first of
    /// exactly that name, or else the first whose name `name` begins with,
    /// under `name` as its full name.
    pub fn get_starts_with(&self, name: String) -> (found: Option<RelationType>)
        ensures
            match found {
                Some(record) => find_relation_type_starts_with(
                    self.inner().relation_types(),
                    name@,
                ) == Some(record@),
                None => find_relation_type_starts_with(self.inner().relation_types(), name@)
                    is None,
            },
    {
        self.relation_type_manager.get_starts_with(name)
    }

    /// The stored records whose name the wildcard pattern `search` matches,
    /// in the order of their registration.
    pub fn find(&self, search: String) -> (found: Vec<RelationType>)
        ensures
            found.deep_view() == relation_types_matching(self.inner().relation_types(), search@),
    {
        self.relation_type_manager.find(search)
    }

    /// Builds a record of the given parts and offers it for registration
    /// where `name` is an identifier; where it is none, nothing is stored or
    /// told.
    pub fn create<E: EntityTypeManager>(
        &mut self,
        known: &ComponentManagerImpl,
        entity_types: &E,
        outbound_type: String,
        name: String,
        inbound_type: String,
        components: Vec<String>,
        properties: Vec<PropertyType>,
        extensions: Vec<Extension>,
    )
        ensures
            final(self).inner().relation_types() == relation_types_with(
                old(self).inner().relation_types(),
                RelationTypeView {
                    outbound_type: outbound_type@,
                    name: name@,
                    full_name: name@,
                    inbound_type: inbound_type@,
                    description: Seq::<char>::empty(),
                    components: components.deep_view(),
                    properties: properties.deep_view(),
                    extensions: extensions.deep_view(),
                    identifier: Seq::<char>::empty(),
                },
                entity_types.entity_types(),
                known.components(),
            ),
            final(self).inner().emitted() == relation_events_with(
                old(self).inner().emitted(),
                RelationTypeView {
                    outbound_type: outbound_type@,
                    name: name@,
                    full_name: name@,
                    inbound_type: inbound_type@,
                    description: Seq::<char>::empty(),
                    components: components.deep_view(),
                    properties: properties.deep_view(),
                    extensions: extensions.deep_view(),
                    identifier: Seq::<char>::empty(),
                },
                entity_types.entity_types(),
                known.components(),
            ),
    {
        self.relation_type_manager.create(
            known,
            entity_types,
            outbound_type,
            name,
            inbound_type,
            components,
            properties,
            extensions,
        );
    }

    /// Removes every record called `name`, and tells of the deletion
    /// whether or not there was one.
    pub fn delete(&mut self, name: String)
        ensures
            final(self).inner().relation_types() == relation_types_without(
                old(self).inner().relation_types(),
                name@,
            ),
            final(self).inner().emitted() == old(self).inner().emitted().push(
                SystemEventView::RelationTypeDeleted(name@),
            ),
    {
        self.relation_type_manager.delete(name);
    }

    /// Offers a record that was read from a file for registration, where
    /// there is one and its name is an identifier. A plugin is not told how
    /// the import went.
    pub fn import<E: EntityTypeManager>(
        &mut self,
        components: &ComponentManagerImpl,
        entity_types: &E,
        decoded: Option<RelationType>,
    )
        ensures
            final(self).inner().relation_types() == if decoded is Some {
                relation_types_with(
                    old(self).inner().relation_types(),
                    decoded->0@,
                    entity_types.entity_types(),
                    components.components(),
                )
            } else {
                old(self).inner().relation_types()
            },
            final(self).inner().emitted() == if decoded is Some {
                relation_events_with(
                    old(self).inner().emitted(),
                    decoded->0@,
                    entity_types.entity_types(),
                    components.components(),
                )
            } else {
                old(self).inner().emitted()
            },
    {
        let _ = self.relation_type_manager.import(components, entity_types, decoded);
    }

    /// The record to write where the type called `name` is exported: the
    /// first stored record of that name, if there is one.
    pub fn export(&self, name: String) -> (exported: Option<RelationType>)
        ensures
            match exported {
                Some(record) => find_relation_type(self.inner().relation_types(), name@) == Some(
                    record@,
                ) && record@.name == name@ && record@.identifier == name@,
                None => find_relation_type(self.inner().relation_types(), name@) is None,
            },
    {
        self.relation_type_manager.export(name)
    }
}

} // verus!
