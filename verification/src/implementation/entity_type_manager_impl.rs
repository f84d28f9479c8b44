//! The registry of entity types.

use vstd::prelude::*;

use crate::api::entity_type_manager::{
    entity_type_creations, entity_types_identified, entity_types_with_all, find_entity_type,
    registered_entity_type, EntityTypeImportError, EntityTypeManager,
};
use crate::api::system_event::{SystemEvent, SystemEventManager, SystemEventView};
use crate::identifier::{
    derive_identifier, lemma_plain_name_is_identifier, valid_identifier, IdentifierError,
};
use crate::implementation::component_manager_impl::ComponentManagerImpl;
use crate::model::component::ComponentView;
use crate::model::entity_type::{
    entity_type_names, EntityType, EntityTypeBuilder, EntityTypeView,
};
use crate::model::property_type::{Extension, PropertyType};
use crate::names::{lemma_absent, lemma_first_position, lemma_is_first};
use crate::plugins::entity_type_provider::EntityTypeProvider;
use crate::sequences::{lemma_filter_empty, lemma_filter_take};
use crate::wildcard::{matches_wildcard, wildcard_matches};

verus! {

/// The stored entity types, in the order of their registration. Every
/// stored record carries the identifier that was derived from its name.
pub struct EntityTypesStorage(Vec<EntityType>);

impl EntityTypesStorage {
    #[verifier::type_invariant]
    spec fn identified(self) -> bool {
        entity_types_identified(self.0.deep_view())
    }

    /// The stored records, in the order of their registration.
    pub closed spec fn records(&self) -> Seq<EntityTypeView> {
        self.0.deep_view()
    }

    /// Puts `record` behind the stored records.
    fn store(&mut self, record: EntityType)
        requires
            record@.identifier == record@.name,
            valid_identifier(record@.name),
        ensures
            final(self).records() == old(self).records().push(record@),
    {
        proof {
            use_type_invariant(&*self);
        }
        let mut records: Vec<EntityType> = Vec::new();
        core::mem::swap(&mut records, &mut self.0);
        let ghost before = records.deep_view();
        records.push(record);
        assert(records.deep_view() =~= before.push(record@));
        self.0 = records;
    }

    /// Stores `records` in place of what was stored.
    fn replace(&mut self, records: Vec<EntityType>)
        requires
            entity_types_identified(records.deep_view()),
        ensures
            final(self).records() == records.deep_view(),
    {
        self.0 = records;
    }
}

/// A storage without entity types.
pub fn create_entity_types_storage() -> (storage: EntityTypesStorage)
    ensures
        storage.records() == Seq::<EntityTypeView>::empty(),
{
    let records: Vec<EntityType> = Vec::new();
    assert(records.deep_view() =~= Seq::<EntityTypeView>::empty());
    EntityTypesStorage(records)
}

/// The entity type of a flow without inputs and outputs, as it is declared.
pub open spec fn generic_flow_type() -> EntityTypeView {
    EntityTypeView {
        name: "generic_flow"@,
        group: "flow"@,
        description: "Generic flow without inputs and outputs"@,
        components: seq!["labeled"@],
        behaviours: Seq::empty(),
        properties: Seq::empty(),
        extensions: Seq::empty(),
        identifier: Seq::empty(),
    }
}

/// The entity type of the events of the type system, as it is declared.
pub open spec fn system_event_type() -> EntityTypeView {
    EntityTypeView {
        name: "system_event"@,
        group: "events"@,
        description: "Events of the type system"@,
        components: seq!["labeled"@, "event"@],
        behaviours: Seq::empty(),
        properties: Seq::empty(),
        extensions: Seq::empty(),
        identifier: Seq::empty(),
    }
}

/// The names of the base entity types are identifiers.
pub proof fn lemma_base_entity_types_are_named()
    ensures
        valid_identifier(generic_flow_type().name),
        valid_identifier(system_event_type().name),
{
    reveal_strlit("generic_flow");
    reveal_strlit("system_event");
    lemma_plain_name_is_identifier("generic_flow"@);
    lemma_plain_name_is_identifier("system_event"@);
}

/// The registry of entity types.
pub struct EntityTypeManagerImpl {
    event_manager: SystemEventManager,
    entity_types: EntityTypesStorage,
}

impl EntityTypeManagerImpl {
    /// A registry without entity types.
    pub fn new() -> (made: Self)
        ensures
            made.entity_types() == Seq::<EntityTypeView>::empty(),
            made.emitted() == Seq::<SystemEventView>::empty(),
    {
        let entity_types = create_entity_types_storage();
        EntityTypeManagerImpl { event_manager: SystemEventManager::new(), entity_types }
    }

    /// Registers the entity types that the rest of the system takes for
    /// granted: the generic flow, then the system event.
    pub fn create_base_entity_types(&mut self, components: &ComponentManagerImpl)
        ensures
            final(self).entity_types() == old(self).entity_types().push(
                registered_entity_type(generic_flow_type(), components.components()),
            ).push(registered_entity_type(system_event_type(), components.components())),
            final(self).emitted() == old(self).emitted().push(
                SystemEventView::EntityTypeCreated(generic_flow_type().name),
            ).push(SystemEventView::EntityTypeCreated(system_event_type().name)),
    {
        proof {
            lemma_base_entity_types_are_named();
        }
        let generic_flow = EntityTypeBuilder::new("generic_flow").group("flow").description(
            "Generic flow without inputs and outputs",
        ).component("labeled").build();
        assert(generic_flow@.components =~= generic_flow_type().components);
        let _ = self.register(components, generic_flow);
        let system_event = EntityTypeBuilder::new("system_event").group("events").description(
            "Events of the type system",
        ).component("labeled").component("event").build();
        assert(system_event@.components =~= system_event_type().components);
        let _ = self.register(components, system_event);
    }

    /// Brings the registry into service: registers the base entity types.
    pub fn init(&mut self, components: &ComponentManagerImpl)
        ensures
            final(self).entity_types() == old(self).entity_types().push(
                registered_entity_type(generic_flow_type(), components.components()),
            ).push(registered_entity_type(system_event_type(), components.components())),
            final(self).emitted() == old(self).emitted().push(
                SystemEventView::EntityTypeCreated(generic_flow_type().name),
            ).push(SystemEventView::EntityTypeCreated(system_event_type().name)),
    {
        self.create_base_entity_types(components);
    }

    /// Nothing is left to do once every part of the system is in service.
    pub fn post_init(&mut self)
        ensures
            final(self).entity_types() == old(self).entity_types(),
            final(self).emitted() == old(self).emitted(),
    {
    }

    /// Nothing is to do before the system goes out of service.
    pub fn pre_shutdown(&mut self)
        ensures
            final(self).entity_types() == old(self).entity_types(),
            final(self).emitted() == old(self).emitted(),
    {
    }

    /// Takes the registry out of service: forgets every entity type.
    pub fn shutdown(&mut self)
        ensures
            final(self).entity_types() == Seq::<EntityTypeView>::empty(),
            final(self).emitted() == old(self).emitted(),
    {
        let records: Vec<EntityType> = Vec::new();
        assert(records.deep_view() =~= Seq::<EntityTypeView>::empty());
        self.entity_types.replace(records);
    }

    /// Hands out the events that the registry has emitted, oldest first.
    pub fn take_events(&mut self) -> (taken: Vec<SystemEvent>)
        ensures
            taken.deep_view() == old(self).emitted(),
            final(self).emitted() == Seq::<SystemEventView>::empty(),
            final(self).entity_types() == old(self).entity_types(),
    {
        self.event_manager.take_events()
    }
}

impl EntityTypeManager for EntityTypeManagerImpl {
    closed spec fn entity_types(&self) -> Seq<EntityTypeView> {
        self.entity_types.records()
    }

    closed spec fn emitted(&self) -> Seq<SystemEventView> {
        self.event_manager.emitted()
    }

    fn register(&mut self, components: &ComponentManagerImpl, entity_type: EntityType) -> (stored:
        EntityType) {
        let properties = components.compose(&entity_type.properties, &entity_type.components);
        let identifier = entity_type.name.clone();
        let record = EntityType {
            name: entity_type.name,
            group: entity_type.group,
            description: entity_type.description,
            components: entity_type.components,
            behaviours: entity_type.behaviours,
            properties,
            extensions: entity_type.extensions,
            identifier,
        };
        let stored = record.clone();
        let event = SystemEvent::EntityTypeCreated(record.name.clone());
        self.entity_types.store(record);
        self.event_manager.emit_event(event);
        stored
    }

    fn try_register(&mut self, components: &ComponentManagerImpl, entity_type: EntityType) -> (stored:
        Result<EntityType, IdentifierError>) {
        match derive_identifier(entity_type.name.as_str()) {
            Ok(_) => Ok(self.register(components, entity_type)),
            Err(error) => Err(error),
        }
    }

    fn get_entity_types(&self) -> (all: Vec<EntityType>) {
        proof {
            use_type_invariant(&self.entity_types);
        }
        let mut all: Vec<EntityType> = Vec::new();
        let mut i: usize = 0;
        while i < self.entity_types.0.len()
            invariant
                i <= self.entity_types.0.len(),
                all.deep_view() == self.entity_types.0.deep_view().take(i as int),
            decreases self.entity_types.0.len() - i,
        {
            let ghost before = all.deep_view();
            all.push(self.entity_types.0[i].clone());
            assert(all.deep_view() == before.push(self.entity_types.0[i as int]@));
            i = i + 1;
        }
        assert(self.entity_types.0.deep_view().take(i as int) == self.entity_types.0.deep_view());
        all
    }

    fn has(&self, name: String) -> (known: bool) {
        proof {
            lemma_first_position(entity_type_names(self.entity_types()), name@);
        }
        self.get(name).is_some()
    }

    fn get(&self, name: String) -> (found: Option<EntityType>) {
        proof {
            use_type_invariant(&self.entity_types);
        }
        let ghost all = self.entity_types.0.deep_view();
        let ghost names = entity_type_names(all);
        let mut i: usize = 0;
        while i < self.entity_types.0.len()
            invariant
                i <= self.entity_types.0.len(),
                all == self.entity_types.0.deep_view(),
                all == self.entity_types(),
                entity_types_identified(all),
                names == entity_type_names(all),
                forall|j: int| 0 <= j < i ==> #[trigger] names[j] != name@,
            decreases self.entity_types.0.len() - i,
        {
            if self.entity_types.0[i].name == name {
                let found = self.entity_types.0[i].clone();
                proof {
                    assert(all[i as int] == self.entity_types.0[i as int]@);
                    assert(names[i as int] == all[i as int].name);
                    lemma_is_first(names, name@, i as int);
                    assert(find_entity_type(all, name@) == Some(all[i as int]));
                    assert(all[i as int].identifier == all[i as int].name);
                }
                return Some(found);
            }
            assert(names[i as int] == self.entity_types.0[i as int]@.name);
            i = i + 1;
        }
        proof {
            lemma_absent(names, name@);
        }
        None
    }

    fn find(&self, search: String) -> (found: Vec<EntityType>) {
        let ghost keep = |entity_type: EntityTypeView|
            wildcard_matches(search@, entity_type.name);
        let mut found: Vec<EntityType> = Vec::new();
        let mut i: usize = 0;
        proof {
            lemma_filter_empty(keep);
            assert(self.entity_types.0.deep_view().take(0) =~= Seq::<EntityTypeView>::empty());
            assert(found.deep_view() =~= Seq::<EntityTypeView>::empty());
        }
        while i < self.entity_types.0.len()
            invariant
                i <= self.entity_types.0.len(),
                keep == |entity_type: EntityTypeView| wildcard_matches(search@, entity_type.name),
                found.deep_view() == self.entity_types.0.deep_view().take(i as int).filter(keep),
            decreases self.entity_types.0.len() - i,
        {
            proof {
                lemma_filter_take(self.entity_types.0.deep_view(), keep, i as int);
            }
            let ghost before = found.deep_view();
            if matches_wildcard(search.as_str(), self.entity_types.0[i].name.as_str()) {
                found.push(self.entity_types.0[i].clone());
                assert(found.deep_view() == before.push(self.entity_types.0[i as int]@));
            }
            i = i + 1;
        }
        assert(self.entity_types.0.deep_view().take(i as int) == self.entity_types.0.deep_view());
        found
    }

    fn create(
        &mut self,
        known: &ComponentManagerImpl,
        name: String,
        group: String,
        components: Vec<String>,
        behaviours: Vec<String>,
        properties: Vec<PropertyType>,
        extensions: Vec<Extension>,
    ) {
        let entity_type = EntityType::new(
            name,
            group,
            String::new(),
            components,
            behaviours,
            properties,
            extensions,
        );
        let _ = self.try_register(known, entity_type);
    }

    fn delete(&mut self, name: String) {
        proof {
            use_type_invariant(&self.entity_types);
        }
        let ghost keep = |entity_type: EntityTypeView| entity_type.name != name@;
        let ghost all = self.entity_types.0.deep_view();
        let mut kept: Vec<EntityType> = Vec::new();
        let mut i: usize = 0;
        proof {
            lemma_filter_empty(keep);
            assert(all.take(0) =~= Seq::<EntityTypeView>::empty());
            assert(kept.deep_view() =~= Seq::<EntityTypeView>::empty());
        }
        while i < self.entity_types.0.len()
            invariant
                i <= self.entity_types.0.len(),
                all == self.entity_types.0.deep_view(),
                entity_types_identified(all),
                keep == |entity_type: EntityTypeView| entity_type.name != name@,
                kept.deep_view() == all.take(i as int).filter(keep),
                entity_types_identified(kept.deep_view()),
            decreases self.entity_types.0.len() - i,
        {
            proof {
                lemma_filter_take(all, keep, i as int);
            }
            let ghost before = kept.deep_view();
            if !(self.entity_types.0[i].name == name) {
                kept.push(self.entity_types.0[i].clone());
                assert(kept.deep_view() == before.push(all[i as int]));
            }
            i = i + 1;
        }
        assert(all.take(i as int) == all);
        self.entity_types.replace(kept);
        self.event_manager.emit_event(SystemEvent::EntityTypeDeleted(name));
    }

    fn import(&mut self, components: &ComponentManagerImpl, decoded: Option<EntityType>) -> (imported:
        Result<EntityType, EntityTypeImportError>) {
        match decoded {
            Some(entity_type) => match self.try_register(components, entity_type) {
                Ok(record) => Ok(record),
                Err(_) => Err(EntityTypeImportError),
            },
            None => Err(EntityTypeImportError),
        }
    }

    fn export(&self, name: String) -> (exported: Option<EntityType>) {
        self.get(name)
    }

    fn register_all(&mut self, components: &ComponentManagerImpl, entity_types: Vec<EntityType>) {
        let ghost offered = entity_types.deep_view();
        let mut i: usize = 0;
        assert(offered.take(0) =~= Seq::<EntityTypeView>::empty());
        assert(self.emitted() =~= old(self).emitted() + entity_type_creations(offered.take(0)));
        while i < entity_types.len()
            invariant
                i <= entity_types.len(),
                offered == entity_types.deep_view(),
                self.entity_types() == entity_types_with_all(
                    old(self).entity_types(),
                    offered.take(i as int),
                    components.components(),
                ),
                self.emitted() == old(self).emitted() + entity_type_creations(
                    offered.take(i as int),
                ),
            decreases entity_types.len() - i,
        {
            proof {
                assert(offered.take(i as int + 1).drop_last() == offered.take(i as int));
                assert(offered.take(i as int + 1).last() == entity_types[i as int]@);
            }
            let ghost told = self.emitted();
            let _ = self.try_register(components, entity_types[i].clone());
            proof {
                let creations = entity_type_creations(offered.take(i as int));
                if valid_identifier(entity_types[i as int]@.name) {
                    assert(self.emitted() =~= old(self).emitted() + creations.push(
                        SystemEventView::EntityTypeCreated(entity_types[i as int]@.name),
                    ));
                }
            }
            i = i + 1;
        }
        assert(offered.take(i as int) == offered);
    }

    fn add_provider<P: EntityTypeProvider>(&mut self, components: &ComponentManagerImpl, provider: &P) {
        let supplied = provider.get_entity_types();
        let ghost offered = supplied;
        self.register_all(components, supplied);
        proof {
            assert(call_ensures(P::get_entity_types, (provider,), offered));
            lemma_offering_extends(
                old(self).entity_types(),
                supplied.deep_view(),
                components.components(),
            );
        }
    }
}

/// Offering records for registration only ever appends to what is stored.
pub proof fn lemma_offering_extends(
    types: Seq<EntityTypeView>,
    offered: Seq<EntityTypeView>,
    components: Seq<ComponentView>,
)
    ensures
        types.is_prefix_of(entity_types_with_all(types, offered, components)),
    decreases offered.len(),
{
    if offered.len() > 0 {
        lemma_offering_extends(types, offered.drop_last(), components);
    }
}

} // verus!
