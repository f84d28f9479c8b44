//! The contract of the entity type registry.

use vstd::prelude::*;

use crate::api::system_event::SystemEventView;
use crate::identifier::{derived_identifier, valid_identifier, IdentifierError};
use crate::implementation::component_manager_impl::ComponentManagerImpl;
use crate::model::component::{composed_properties, ComponentView};
use crate::model::entity_type::{entity_type_names, EntityType, EntityTypeView};
use crate::model::property_type::{Extension, PropertyType};
use crate::names::first_position;
use crate::plugins::entity_type_provider::EntityTypeProvider;
use crate::wildcard::wildcard_matches;

verus! {

/// An entity type could not be imported.
#[derive(Debug, PartialEq, Eq)]
pub struct EntityTypeImportError;

/// What the registry stores for `declared`: the identifier is derived from
/// the name, and the properties of every known component that the type
/// refers to follow the declared ones.
pub open spec fn registered_entity_type(
    declared: EntityTypeView,
    components: Seq<ComponentView>,
) -> EntityTypeView {
    EntityTypeView {
        identifier: declared.name,
        properties: composed_properties(declared.properties, declared.components, components),
        ..declared
    }
}

/// Whether every record of `types` carries the identifier of its name.
pub open spec fn entity_types_identified(types: Seq<EntityTypeView>) -> bool {
    forall|i: int|
        0 <= i < types.len() ==> (#[trigger] types[i]).identifier == types[i].name
            && valid_identifier(types[i].name)
}

/// The first of `types` that is called `name`.
pub open spec fn find_entity_type(types: Seq<EntityTypeView>, name: Seq<char>) -> Option<
    EntityTypeView,
> {
    let place = first_position(entity_type_names(types), name);
    if place < types.len() {
        Some(types[place])
    } else {
        None
    }
}

/// The records of `types` whose name `pattern` matches, in their order.
pub open spec fn entity_types_matching(types: Seq<EntityTypeView>, pattern: Seq<char>) -> Seq<
    EntityTypeView,
> {
    types.filter(|entity_type: EntityTypeView| wildcard_matches(pattern, entity_type.name))
}

/// The records of `types` that are not called `name`, in their order.
pub open spec fn entity_types_without(types: Seq<EntityTypeView>, name: Seq<char>) -> Seq<
    EntityTypeView,
> {
    types.filter(|entity_type: EntityTypeView| entity_type.name != name)
}

/// What the registry holds after it was offered `offered` one after the
/// other: it stores, composed, each record whose name is an identifier, and
/// passes over the others.
pub open spec fn entity_types_with_all(
    types: Seq<EntityTypeView>,
    offered: Seq<EntityTypeView>,
    components: Seq<ComponentView>,
) -> Seq<EntityTypeView>
    decreases offered.len(),
{
    if offered.len() == 0 {
        types
    } else {
        let before = entity_types_with_all(types, offered.drop_last(), components);
        if valid_identifier(offered.last().name) {
            before.push(registered_entity_type(offered.last(), components))
        } else {
            before
        }
    }
}

/// The events that tell of the registrations of [`entity_types_with_all`].
pub open spec fn entity_type_creations(offered: Seq<EntityTypeView>) -> Seq<SystemEventView>
    decreases offered.len(),
{
    if offered.len() == 0 {
        Seq::empty()
    } else {
        let before = entity_type_creations(offered.drop_last());
        if valid_identifier(offered.last().name) {
            before.push(SystemEventView::EntityTypeCreated(offered.last().name))
        } else {
            before
        }
    }
}

/// Whether a registry that held `before` and had told `told` holds `after`
/// and has told `told_after` once it has asked `provider` for its entity
/// types and offered each of them for registration, one after the other,
/// with `components` to compose them of.
pub open spec fn entity_types_supplied<P: EntityTypeProvider>(
    before: Seq<EntityTypeView>,
    told: Seq<SystemEventView>,
    after: Seq<EntityTypeView>,
    told_after: Seq<SystemEventView>,
    components: Seq<ComponentView>,
    provider: P,
) -> bool {
    exists|supplied: Vec<EntityType>|
        {
            &&& #[trigger] call_ensures(P::get_entity_types, (&provider,), supplied)
            &&& after == entity_types_with_all(before, supplied.deep_view(), components)
            &&& told_after == told + entity_type_creations(supplied.deep_view())
        }
}

/// A registry of entity types.
///
/// The registry keeps its records in the order of registration. It never
/// merges two records of one name: a lookup answers with the first, a
/// deletion removes them all.
pub trait EntityTypeManager {
    /// The stored records, in the order of their registration.
    spec fn entity_types(&self) -> Seq<EntityTypeView>;

    /// The events that the registry has emitted and nobody has taken yet.
    spec fn emitted(&self) -> Seq<SystemEventView>;

    /// Stores `entity_type`, composed of the components that `components`
    /// knows, behind the records that are there, tells of its creation, and
    /// hands back what was stored. The name has to be an identifier.
    fn register(&mut self, components: &ComponentManagerImpl, entity_type: EntityType) -> (stored:
        EntityType)
        requires
            valid_identifier(entity_type@.name),
        ensures
            stored@ == registered_entity_type(entity_type@, components.components()),
            final(self).entity_types() == old(self).entity_types().push(stored@),
            final(self).emitted() == old(self).emitted().push(
                SystemEventView::EntityTypeCreated(entity_type@.name),
            ),
    ;

    /// Registers `entity_type` where its name is an identifier. Where it is
    /// none, nothing is stored or told, and the answer says why.
    fn try_register(&mut self, components: &ComponentManagerImpl, entity_type: EntityType) -> (stored:
        Result<EntityType, IdentifierError>)
        ensures
            match stored {
                Ok(record) => {
                    &&& valid_identifier(entity_type@.name)
                    &&& record@ == registered_entity_type(entity_type@, components.components())
                    &&& final(self).entity_types() == old(self).entity_types().push(record@)
                    &&& final(self).emitted() == old(self).emitted().push(
                        SystemEventView::EntityTypeCreated(entity_type@.name),
                    )
                },
                Err(error) => {
                    &&& derived_identifier(entity_type@.name) == Err::<Seq<char>, IdentifierError>(
                        error,
                    )
                    &&& final(self).entity_types() == old(self).entity_types()
                    &&& final(self).emitted() == old(self).emitted()
                },
            },
    ;

    /// All stored records, in the order of their registration.
    fn get_entity_types(&self) -> (all: Vec<EntityType>)
        ensures
            all.deep_view() == self.entity_types(),
            entity_types_identified(self.entity_types()),
    ;

    /// Whether a record called `name` is stored.
    fn has(&self, name: String) -> (known: bool)
        ensures
            known == entity_type_names(self.entity_types()).contains(name@),
            known == find_entity_type(self.entity_types(), name@) is Some,
    ;

    /// The first stored record called `name`.
    fn get(&self, name: String) -> (found: Option<EntityType>)
        ensures
            match found {
                Some(record) => find_entity_type(self.entity_types(), name@) == Some(record@)
                    && record@.name == name@ && record@.identifier == name@,
                None => find_entity_type(self.entity_types(), name@) is None,
            },
    ;

    /// The stored records whose name the wildcard pattern `search` matches,
    /// in the order of their registration.
    fn find(&self, search: String) -> (found: Vec<EntityType>)
        ensures
            found.deep_view() == entity_types_matching(self.entity_types(), search@),
    ;

    /// Builds a record of the given parts and registers it where `name` is
    /// an identifier; where it is none, nothing is stored or told.
    fn create(
        &mut self,
        known: &ComponentManagerImpl,
        name: String,
        group: String,
        components: Vec<String>,
        behaviours: Vec<String>,
        properties: Vec<PropertyType>,
        extensions: Vec<Extension>,
    )
        ensures
            final(self).entity_types() == if valid_identifier(name@) {
                old(self).entity_types().push(
                    registered_entity_type(
                        EntityTypeView {
                            name: name@,
                            group: group@,
                            description: Seq::<char>::empty(),
                            components: components.deep_view(),
                            behaviours: behaviours.deep_view(),
                            properties: properties.deep_view(),
                            extensions: extensions.deep_view(),
                            identifier: Seq::<char>::empty(),
                        },
                        known.components(),
                    ),
                )
            } else {
                old(self).entity_types()
            },
            final(self).emitted() == if valid_identifier(name@) {
                old(self).emitted().push(SystemEventView::EntityTypeCreated(name@))
            } else {
                old(self).emitted()
            },
    ;

    /// Removes every record called `name`, and tells of the deletion
    /// whether or not there was one.
    fn delete(&mut self, name: String)
        ensures
            final(self).entity_types() == entity_types_without(old(self).entity_types(), name@),
            final(self).emitted() == old(self).emitted().push(
                SystemEventView::EntityTypeDeleted(name@),
            ),
    ;

    /// Registers a record that was read from a file, and hands back what
    /// was stored. `decoded` is `None` where the file could not be read or
    /// did not hold a record. The import fails there, and where the name of
    /// the record is no identifier; nothing is stored or told then.
    fn import(&mut self, components: &ComponentManagerImpl, decoded: Option<EntityType>) -> (imported:
        Result<EntityType, EntityTypeImportError>)
        ensures
            imported is Ok <==> decoded is Some && valid_identifier(decoded->0@.name),
            match imported {
                Ok(record) => {
                    &&& record@ == registered_entity_type(decoded->0@, components.components())
                    &&& final(self).entity_types() == old(self).entity_types().push(record@)
                    &&& final(self).emitted() == old(self).emitted().push(
                        SystemEventView::EntityTypeCreated(record@.name),
                    )
                },
                Err(_) => {
                    &&& final(self).entity_types() == old(self).entity_types()
                    &&& final(self).emitted() == old(self).emitted()
                },
            },
    ;

    /// The record to write where the type called `name` is exported: the
    /// first stored record of that name. Nothing is written where there is
    /// none.
    fn export(&self, name: String) -> (exported: Option<EntityType>)
        ensures
            match exported {
                Some(record) => find_entity_type(self.entity_types(), name@) == Some(record@)
                    && record@.name == name@ && record@.identifier == name@,
                None => find_entity_type(self.entity_types(), name@) is None,
            },
    ;

    /// Offers every record of `entity_types` for registration, one after
    /// the other.
    fn register_all(&mut self, components: &ComponentManagerImpl, entity_types: Vec<EntityType>)
        ensures
            final(self).entity_types() == entity_types_with_all(
                old(self).entity_types(),
                entity_types.deep_view(),
                components.components(),
            ),
            final(self).emitted() == old(self).emitted() + entity_type_creations(
                entity_types.deep_view(),
            ),
    ;

    /// Asks `provider` once for its entity types and offers each of them
    /// for registration, one after the other.
    fn add_provider<P: EntityTypeProvider>(&mut self, components: &ComponentManagerImpl, provider: &P)
        ensures
            entity_types_supplied(
                old(self).entity_types(),
                old(self).emitted(),
                final(self).entity_types(),
                final(self).emitted(),
                components.components(),
                *provider,
            ),
            old(self).entity_types().is_prefix_of(final(self).entity_types()),
            old(self).emitted().is_prefix_of(final(self).emitted()),
    ;
}

} // verus!
