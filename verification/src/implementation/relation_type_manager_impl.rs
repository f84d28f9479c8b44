//! The registry of relation types.

use vstd::prelude::*;

use crate::api::entity_type_manager::EntityTypeManager;
use crate::api::relation_type_manager::{
    endpoint_known, find_relation_type, find_relation_type_starts_with,
    lemma_relation_offering_extends, registered_relation_type, relation_events_with,
    relation_events_with_all, relation_type_admitted, relation_types_identified,
    relation_types_matching, relation_types_supplied, relation_types_with,
    relation_types_with_all, relation_types_without, RelationTypeImportError,
};
use crate::api::system_event::{SystemEvent, SystemEventManager, SystemEventView};
use crate::identifier::{derive_identifier, derived_identifier, valid_identifier, IdentifierError};
use crate::implementation::component_manager_impl::ComponentManagerImpl;
use crate::model::property_type::{Extension, PropertyType};
use crate::model::relation_type::{relation_names, RelationType, RelationTypeView};
use crate::names::{
    lemma_absent, lemma_first_position, lemma_is_first, lemma_is_first_prefix, lemma_no_prefix,
};
use crate::plugins::relation_type_provider::RelationTypeProvider;
use crate::sequences::{lemma_filter_empty, lemma_filter_take};
use crate::text::has_prefix;
use crate::wildcard::{matches_wildcard, wildcard_matches};

verus! {

/// The stored relation types, in the order of their registration. Every
/// stored record carries the identifier that was derived from its name.
pub struct RelationTypes(Vec<RelationType>);

impl RelationTypes {
    #[verifier::type_invariant]
    spec fn identified(self) -> bool {
        relation_types_identified(self.0.deep_view())
    }

    /// The stored records, in the order of their registration.
    pub closed spec fn records(&self) -> Seq<RelationTypeView> {
        self.0.deep_view()
    }

    /// Puts `record` behind the stored records.
    fn store(&mut self, record: RelationType)
        requires
            record@.identifier == record@.name,
            valid_identifier(record@.name),
        ensures
            final(self).records() == old(self).records().push(record@),
    {
        proof {
            use_type_invariant(&*self);
        }
        let mut records: Vec<RelationType> = Vec::new();
        core::mem::swap(&mut records, &mut self.0);
        let ghost before = records.deep_view();
        records.push(record);
        assert(records.deep_view() =~= before.push(record@));
        self.0 = records;
    }

    /// Stores `records` in place of what was stored.
    fn replace(&mut self, records: Vec<RelationType>)
        requires
            relation_types_identified(records.deep_view()),
        ensures
            final(self).records() == records.deep_view(),
    {
        self.0 = records;
    }
}

/// A storage without relation types.
pub fn create_relation_type_storage() -> (storage: RelationTypes)
    ensures
        storage.records() == Seq::<RelationTypeView>::empty(),
{
    let records: Vec<RelationType> = Vec::new();
    assert(records.deep_view() =~= Seq::<RelationTypeView>::empty());
    RelationTypes(records)
}

/// The registry of relation types.
///
/// The registry keeps its records in the order of registration. It never
/// merges two records of one name: a lookup answers with the first, a
/// deletion removes them all.
pub struct RelationTypeManagerImpl {
    event_manager: SystemEventManager,
    relation_types: RelationTypes,
}

impl RelationTypeManagerImpl {
    /// The stored records, in the order of their registration.
    pub closed spec fn relation_types(&self) -> Seq<RelationTypeView> {
        self.relation_types.records()
    }

    /// The events that the registry has emitted and nobody has taken yet.
    pub closed spec fn emitted(&self) -> Seq<SystemEventView> {
        self.event_manager.emitted()
    }

    /// A registry without relation types.
    pub fn new() -> (made: Self)
        ensures
            made.relation_types() == Seq::<RelationTypeView>::empty(),
            made.emitted() == Seq::<SystemEventView>::empty(),
    {
        let relation_types = create_relation_type_storage();
        RelationTypeManagerImpl { event_manager: SystemEventManager::new(), relation_types }
    }

    /// Whether `endpoint` is the wildcard, a registered entity type or a
    /// registered component.
    fn knows_endpoint<E: EntityTypeManager>(
        components: &ComponentManagerImpl,
        entity_types: &E,
        endpoint: &String,
    ) -> (known: bool)
        ensures
            known == endpoint_known(endpoint@, entity_types.entity_types(), components.components()),
    {
        let wildcard = "*".to_owned();
        *endpoint == wildcard || entity_types.has(endpoint.clone()) || components.has(
            endpoint.clone(),
        )
    }

    /// Offers `relation_type` for registration as [`Self::register`] does,
    /// and says how it went: the answer is the record as it was stored, or
    /// `None` where one of the ends is unknown and nothing was stored or
    /// told. Who wants to tell of a rejection learns of it here. The name
    /// has to be an identifier.
    pub fn offer<E: EntityTypeManager>(
        &mut self,
        components: &ComponentManagerImpl,
        entity_types: &E,
        relation_type: RelationType,
    ) -> (stored: Option<RelationType>)
        requires
            valid_identifier(relation_type@.name),
        ensures
            stored is Some <==> relation_type_admitted(
                relation_type@,
                entity_types.entity_types(),
                components.components(),
            ),
            stored matches Some(record) ==> record@ == registered_relation_type(
                relation_type@,
                components.components(),
            ),
            final(self).relation_types() == relation_types_with(
                old(self).relation_types(),
                relation_type@,
                entity_types.entity_types(),
                components.components(),
            ),
            final(self).emitted() == relation_events_with(
                old(self).emitted(),
                relation_type@,
                entity_types.entity_types(),
                components.components(),
            ),
    {
        if !Self::knows_endpoint(components, entity_types, &relation_type.outbound_type) {
            return None;
        }
        if !Self::knows_endpoint(components, entity_types, &relation_type.inbound_type) {
            return None;
        }
        let properties = components.compose(&relation_type.properties, &relation_type.components);
        let identifier = relation_type.name.clone();
        let event = SystemEvent::RelationTypeCreated(relation_type.name.clone());
        let record = RelationType {
            outbound_type: relation_type.outbound_type,
            name: relation_type.name,
            full_name: relation_type.full_name,
            inbound_type: relation_type.inbound_type,
            description: relation_type.description,
            components: relation_type.components,
            properties,
            extensions: relation_type.extensions,
            identifier,
        };
        let stored = record.clone();
        self.relation_types.store(record);
        self.event_manager.emit_event(event);
        Some(stored)
    }

    /// Offers `relation_type` for registration. Where both its ends are
    /// known, the registry stores it, composed of the components that
    /// `components` knows, behind the records that are there, and tells of
    /// its creation. Where one of them is not, nothing is stored or told.
    /// The name has to be an identifier.
    pub fn register<E: EntityTypeManager>(
        &mut self,
        components: &ComponentManagerImpl,
        entity_types: &E,
        relation_type: RelationType,
    )
        requires
            valid_identifier(relation_type@.name),
        ensures
            final(self).relation_types() == relation_types_with(
                old(self).relation_types(),
                relation_type@,
                entity_types.entity_types(),
                components.components(),
            ),
            final(self).emitted() == relation_events_with(
                old(self).emitted(),
                relation_type@,
                entity_types.entity_types(),
                components.components(),
            ),
    {
        let _ = self.offer(components, entity_types, relation_type);
    }

    /// Offers `relation_type` for registration where its name is an
    /// identifier. Where it is none, nothing is stored or told, and the
    /// answer says why.
    pub fn try_register<E: EntityTypeManager>(
        &mut self,
        components: &ComponentManagerImpl,
        entity_types: &E,
        relation_type: RelationType,
    ) -> (offered: Result<(), IdentifierError>)
        ensures
            match offered {
                Ok(_) => valid_identifier(relation_type@.name),
                Err(error) => derived_identifier(relation_type@.name) == Err::<
                    Seq<char>,
                    IdentifierError,
                >(error),
            },
            final(self).relation_types() == relation_types_with(
                old(self).relation_types(),
                relation_type@,
                entity_types.entity_types(),
                components.components(),
            ),
            final(self).emitted() == relation_events_with(
                old(self).emitted(),
                relation_type@,
                entity_types.entity_types(),
                components.components(),
            ),
    {
        match derive_identifier(relation_type.name.as_str()) {
            Ok(_) => {
                self.register(components, entity_types, relation_type);
                Ok(())
            },
            Err(error) => Err(error),
        }
    }

    /// All stored records, in the order of their registration.
    pub fn get_relation_types(&self) -> (all: Vec<RelationType>)
        ensures
            all.deep_view() == self.relation_types(),
            relation_types_identified(self.relation_types()),
    {
        proof {
            use_type_invariant(&self.relation_types);
        }
        let mut all: Vec<RelationType> = Vec::new();
        let mut i: usize = 0;
        while i < self.relation_types.0.len()
            invariant
                i <= self.relation_types.0.len(),
                all.deep_view() == self.relation_types.0.deep_view().take(i as int),
            decreases self.relation_types.0.len() - i,
        {
            let ghost before = all.deep_view();
            all.push(self.relation_types.0[i].clone());
            assert(all.deep_view() == before.push(self.relation_types.0[i as int]@));
            i = i + 1;
        }
        assert(self.relation_types.0.deep_view().take(i as int)
            == self.relation_types.0.deep_view());
        all
    }

    /// Whether a record called `name` is stored.
    pub fn has(&self, name: String) -> (known: bool)
        ensures
            known == relation_names(self.relation_types()).contains(name@),
            known == find_relation_type(self.relation_types(), name@) is Some,
    {
        proof {
            lemma_first_position(relation_names(self.relation_types()), name@);
        }
        self.get(name).is_some()
    }

    /// Whether a record stands for the relation called `name`: one of that
    /// name, or one whose name `name` begins with.
    pub fn has_starts_with(&self, name: String) -> (known: bool)
        ensures
            known == find_relation_type_starts_with(self.relation_types(), name@) is Some,
    {
        self.get_starts_with(name).is_some()
    }

    /// The first stored record called `name`.
    pub fn get(&self, name: String) -> (found: Option<RelationType>)
        ensures
            match found {
                Some(record) => find_relation_type(self.relation_types(), name@) == Some(record@)
                    && record@.name == name@ && record@.identifier == name@,
                None => find_relation_type(self.relation_types(), name@) is None,
            },
    {
        proof {
            use_type_invariant(&self.relation_types);
        }
        let ghost all = self.relation_types.0.deep_view();
        let ghost names = relation_names(all);
        let mut i: usize = 0;
        while i < self.relation_types.0.len()
            invariant
                i <= self.relation_types.0.len(),
                all == self.relation_types.0.deep_view(),
                all == self.relation_types(),
                relation_types_identified(all),
                names == relation_names(all),
                forall|j: int| 0 <= j < i ==> #[trigger] names[j] != name@,
            decreases self.relation_types.0.len() - i,
        {
            if self.relation_types.0[i].name == name {
                let found = self.relation_types.0[i].clone();
                proof {
                    assert(all[i as int] == self.relation_types.0[i as int]@);
                    assert(names[i as int] == all[i as int].name);
                    lemma_is_first(names, name@, i as int);
                    assert(find_relation_type(all, name@) == Some(all[i as int]));
                    assert(all[i as int].identifier == all[i as int].name);
                }
                return Some(found);
            }
            assert(names[i as int] == self.relation_types.0[i as int]@.name);
            i = i + 1;
        }
        proof {
            lemma_absent(names, name@);
        }
        None
    }

    /// The record that stands for the relation called `name`. A record of
    /// exactly that name comes first. Where there is none, the answer is the
    /// first stored record whose name `name` begins with, and it carries
    /// `name` as its full name.
    pub fn get_starts_with(&self, name: String) -> (found: Option<RelationType>)
        ensures
            match found {
                Some(record) => find_relation_type_starts_with(self.relation_types(), name@)
                    == Some(record@),
                None => find_relation_type_starts_with(self.relation_types(), name@) is None,
            },
    {
        match self.get(name.clone()) {
            Some(exact) => Some(exact),
            None => {
                let ghost all = self.relation_types.0.deep_view();
                let ghost names = relation_names(all);
                let mut i: usize = 0;
                while i < self.relation_types.0.len()
                    invariant
                        i <= self.relation_types.0.len(),
                        all == self.relation_types.0.deep_view(),
                        all == self.relation_types(),
                        names == relation_names(all),
                        find_relation_type(all, name@) is None,
                        forall|j: int| 0 <= j < i ==> !(#[trigger] names[j]).is_prefix_of(name@),
                    decreases self.relation_types.0.len() - i,
                {
                    assert(names[i as int] == self.relation_types.0[i as int]@.name);
                    if has_prefix(name.as_str(), self.relation_types.0[i].name.as_str()) {
                        let mut found = self.relation_types.0[i].clone();
                        found.full_name = name;
                        proof {
                            assert(all[i as int] == self.relation_types.0[i as int]@);
                            lemma_is_first_prefix(names, name@, i as int);
                        }
                        return Some(found);
                    }
                    i = i + 1;
                }
                proof {
                    lemma_no_prefix(names, name@);
                }
                None
            },
        }
    }

    /// The stored records whose name the wildcard pattern `search` matches,
    /// in the order of their registration.
    pub fn find(&self, search: String) -> (found: Vec<RelationType>)
        ensures
            found.deep_view() == relation_types_matching(self.relation_types(), search@),
    {
        let ghost keep = |relation_type: RelationTypeView|
            wildcard_matches(search@, relation_type.name);
        let mut found: Vec<RelationType> = Vec::new();
        let mut i: usize = 0;
        proof {
            lemma_filter_empty(keep);
            assert(self.relation_types.0.deep_view().take(0) =~= Seq::<RelationTypeView>::empty());
            assert(found.deep_view() =~= Seq::<RelationTypeView>::empty());
        }
        while i < self.relation_types.0.len()
            invariant
                i <= self.relation_types.0.len(),
                keep == |relation_type: RelationTypeView|
                    wildcard_matches(search@, relation_type.name),
                found.deep_view() == self.relation_types.0.deep_view().take(i as int).filter(keep),
            decreases self.relation_types.0.len() - i,
        {
            proof {
                lemma_filter_take(self.relation_types.0.deep_view(), keep, i as int);
            }
            let ghost before = found.deep_view();
            if matches_wildcard(search.as_str(), self.relation_types.0[i].name.as_str()) {
                found.push(self.relation_types.0[i].clone());
                assert(found.deep_view() == before.push(self.relation_types.0[i as int]@));
            }
            i = i + 1;
        }
        assert(self.relation_types.0.deep_view().take(i as int)
            == self.relation_types.0.deep_view());
        found
    }

    /// Builds a record of the given parts and offers it for registration
    /// where `name` is an identifier; where it is none, nothing is stored or
    /// told.
    pub fn create<E: EntityTypeManager>(
        &mut self,
        known: &ComponentManagerImpl,
        entity_types: &E,
        outbound_type: String,
        name: String,
        inbound_type: String,
        components: Vec<String>,
        properties: Vec<PropertyType>,
        extensions: Vec<Extension>,
    )
        ensures
            final(self).relation_types() == relation_types_with(
                old(self).relation_types(),
                RelationTypeView {
                    outbound_type: outbound_type@,
                    name: name@,
                    full_name: name@,
                    inbound_type: inbound_type@,
                    description: Seq::<char>::empty(),
                    components: components.deep_view(),
                    properties: properties.deep_view(),
                    extensions: extensions.deep_view(),
                    identifier: Seq::<char>::empty(),
                },
                entity_types.entity_types(),
                known.components(),
            ),
            final(self).emitted() == relation_events_with(
                old(self).emitted(),
                RelationTypeView {
                    outbound_type: outbound_type@,
                    name: name@,
                    full_name: name@,
                    inbound_type: inbound_type@,
                    description: Seq::<char>::empty(),
                    components: components.deep_view(),
                    properties: properties.deep_view(),
                    extensions: extensions.deep_view(),
                    identifier: Seq::<char>::empty(),
                },
                entity_types.entity_types(),
                known.components(),
            ),
    {
        let relation_type = RelationType::new(
            outbound_type,
            name,
            inbound_type,
            String::new(),
            components,
            properties,
            extensions,
        );
        let _ = self.try_register(known, entity_types, relation_type);
    }

    /// Removes every record called `name`, and tells of the deletion
    /// whether or not there was one.
    pub fn delete(&mut self, name: String)
        ensures
            final(self).relation_types() == relation_types_without(
                old(self).relation_types(),
                name@,
            ),
            final(self).emitted() == old(self).emitted().push(
                SystemEventView::RelationTypeDeleted(name@),
            ),
    {
        proof {
            use_type_invariant(&self.relation_types);
        }
        let ghost keep = |relation_type: RelationTypeView| relation_type.name != name@;
        let ghost all = self.relation_types.0.deep_view();
        let mut kept: Vec<RelationType> = Vec::new();
        let mut i: usize = 0;
        proof {
            lemma_filter_empty(keep);
            assert(all.take(0) =~= Seq::<RelationTypeView>::empty());
            assert(kept.deep_view() =~= Seq::<RelationTypeView>::empty());
        }
        while i < self.relation_types.0.len()
            invariant
                i <= self.relation_types.0.len(),
                all == self.relation_types.0.deep_view(),
                relation_types_identified(all),
                keep == |relation_type: RelationTypeView| relation_type.name != name@,
                kept.deep_view() == all.take(i as int).filter(keep),
                relation_types_identified(kept.deep_view()),
            decreases self.relation_types.0.len() - i,
        {
            proof {
                lemma_filter_take(all, keep, i as int);
            }
            let ghost before = kept.deep_view();
            if !(self.relation_types.0[i].name == name) {
                kept.push(self.relation_types.0[i].clone());
                assert(kept.deep_view() == before.push(all[i as int]));
            }
            i = i + 1;
        }
        assert(all.take(i as int) == all);
        self.relation_types.replace(kept);
        self.event_manager.emit_event(SystemEvent::RelationTypeDeleted(name));
    }

    /// Offers a record that was read from a file for registration.
    /// `decoded` is `None` where the file could not be read or did not hold
    /// a record. The import fails there, and where the name of the record
    /// is no identifier; nothing is stored or told then. Otherwise the
    /// answer is the record as it was stored, or, where one of its ends is
    /// unknown and nothing was stored, the record as it was read.
    pub fn import<E: EntityTypeManager>(
        &mut self,
        components: &ComponentManagerImpl,
        entity_types: &E,
        decoded: Option<RelationType>,
    ) -> (imported: Result<RelationType, RelationTypeImportError>)
        ensures
            imported is Ok <==> decoded is Some && valid_identifier(decoded->0@.name),
            match imported {
                Ok(record) => {
                    &&& record@ == if relation_type_admitted(
                        decoded->0@,
                        entity_types.entity_types(),
                        components.components(),
                    ) {
                        registered_relation_type(decoded->0@, components.components())
                    } else {
                        decoded->0@
                    }
                    &&& final(self).relation_types() == relation_types_with(
                        old(self).relation_types(),
                        decoded->0@,
                        entity_types.entity_types(),
                        components.components(),
                    )
                    &&& final(self).emitted() == relation_events_with(
                        old(self).emitted(),
                        decoded->0@,
                        entity_types.entity_types(),
                        components.components(),
                    )
                },
                Err(_) => {
                    &&& final(self).relation_types() == old(self).relation_types()
                    &&& final(self).emitted() == old(self).emitted()
                },
            },
    {
        match decoded {
            Some(relation_type) => {
                match derive_identifier(relation_type.name.as_str()) {
                    Ok(_) => {
                        let read = relation_type.clone();
                        match self.offer(components, entity_types, relation_type) {
                            Some(stored) => Ok(stored),
                            None => Ok(read),
                        }
                    },
                    Err(_) => Err(RelationTypeImportError),
                }
            },
            None => Err(RelationTypeImportError),
        }
    }

    /// The record to write where the type called `name` is exported: the
    /// first stored record of that name. Nothing is written where there is
    /// none.
    pub fn export(&self, name: String) -> (exported: Option<RelationType>)
        ensures
            match exported {
                Some(record) => find_relation_type(self.relation_types(), name@) == Some(record@)
                    && record@.name == name@ && record@.identifier == name@,
                None => find_relation_type(self.relation_types(), name@) is None,
            },
    {
        self.get(name)
    }

    /// Offers every record of `relation_types` for registration, one after
    /// the other.
    pub fn register_all<E: EntityTypeManager>(
        &mut self,
        components: &ComponentManagerImpl,
        entity_types: &E,
        relation_types: Vec<RelationType>,
    )
        ensures
            final(self).relation_types() == relation_types_with_all(
                old(self).relation_types(),
                relation_types.deep_view(),
                entity_types.entity_types(),
                components.components(),
            ),
            final(self).emitted() == relation_events_with_all(
                old(self).emitted(),
                relation_types.deep_view(),
                entity_types.entity_types(),
                components.components(),
            ),
    {
        let ghost offered = relation_types.deep_view();
        let mut i: usize = 0;
        assert(offered.take(0) =~= Seq::<RelationTypeView>::empty());
        while i < relation_types.len()
            invariant
                i <= relation_types.len(),
                offered == relation_types.deep_view(),
                self.relation_types() == relation_types_with_all(
                    old(self).relation_types(),
                    offered.take(i as int),
                    entity_types.entity_types(),
                    components.components(),
                ),
                self.emitted() == relation_events_with_all(
                    old(self).emitted(),
                    offered.take(i as int),
                    entity_types.entity_types(),
                    components.components(),
                ),
            decreases relation_types.len() - i,
        {
            proof {
                assert(offered.take(i as int + 1).drop_last() == offered.take(i as int));
                assert(offered.take(i as int + 1).last() == relation_types[i as int]@);
            }
            let _ = self.try_register(components, entity_types, relation_types[i].clone());
            i = i + 1;
        }
        assert(offered.take(i as int) == offered);
    }

    /// Asks `provider` once for its relation types and offers each of them
    /// for registration, one after the other.
    pub fn add_provider<E: EntityTypeManager, P: RelationTypeProvider>(
        &mut self,
        components: &ComponentManagerImpl,
        entity_types: &E,
        provider: &P,
    )
        ensures
            relation_types_supplied(
                old(self).relation_types(),
                old(self).emitted(),
                final(self).relation_types(),
                final(self).emitted(),
                entity_types.entity_types(),
                components.components(),
                *provider,
            ),
            old(self).relation_types().is_prefix_of(final(self).relation_types()),
            old(self).emitted().is_prefix_of(final(self).emitted()),
    {
        let supplied = provider.get_relation_types();
        let ghost offered = supplied;
        self.register_all(components, entity_types, supplied);
        proof {
            assert(call_ensures(P::get_relation_types, (provider,), offered));
            lemma_relation_offering_extends(
                old(self).relation_types(),
                old(self).emitted(),
                supplied.deep_view(),
                entity_types.entity_types(),
                components.components(),
            );
        }
    }

    /// Nothing is to do to bring the registry into service.
    pub fn init(&mut self)
        ensures
            final(self).relation_types() == old(self).relation_types(),
            final(self).emitted() == old(self).emitted(),
    {
    }

    /// Nothing is left to do once every part of the system is in service.
    pub fn post_init(&mut self)
        ensures
            final(self).relation_types() == old(self).relation_types(),
            final(self).emitted() == old(self).emitted(),
    {
    }

    /// Nothing is to do before the system goes out of service.
    pub fn pre_shutdown(&mut self)
        ensures
            final(self).relation_types() == old(self).relation_types(),
            final(self).emitted() == old(self).emitted(),
    {
    }

    /// Takes the registry out of service: forgets every relation type.
    pub fn shutdown(&mut self)
        ensures
            final(self).relation_types() == Seq::<RelationTypeView>::empty(),
            final(self).emitted() == old(self).emitted(),
    {
        let records: Vec<RelationType> = Vec::new();
        assert(records.deep_view() =~= Seq::<RelationTypeView>::empty());
        self.relation_types.replace(records);
    }

    /// Hands out the events that the registry has emitted, oldest first.
    pub fn take_events(&mut self) -> (taken: Vec<SystemEvent>)
        ensures
            taken.deep_view() == old(self).emitted(),
            final(self).emitted() == Seq::<SystemEventView>::empty(),
            final(self).relation_types() == old(self).relation_types(),
    {
        self.event_manager.take_events()
    }
}

} // verus!
