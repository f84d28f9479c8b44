//! What the relation type registry stores and answers.

use vstd::prelude::*;

use crate::api::system_event::SystemEventView;
use crate::identifier::valid_identifier;
use crate::model::component::{component_names, composed_properties, ComponentView};
use crate::model::entity_type::{entity_type_names, EntityTypeView};
use crate::model::relation_type::{relation_names, RelationType, RelationTypeView};
use crate::plugins::relation_type_provider::RelationTypeProvider;
use crate::names::{first_position, first_prefix_position};
use crate::wildcard::wildcard_matches;

verus! {

/// A relation type could not be imported.
#[derive(Debug, PartialEq, Eq)]
pub struct RelationTypeImportError;

/// Whether `endpoint` may stand as the outbound or inbound type of a
/// relation type: it is the wildcard `*`, or the name of a registered entity
/// type or component.
pub open spec fn endpoint_known(
    endpoint: Seq<char>,
    entity_types: Seq<EntityTypeView>,
    components: Seq<ComponentView>,
) -> bool {
    ||| endpoint == "*"@
    ||| entity_type_names(entity_types).contains(endpoint)
    ||| component_names(components).contains(endpoint)
}

/// Whether the registry admits `declared`: both its ends are known.
pub open spec fn relation_type_admitted(
    declared: RelationTypeView,
    entity_types: Seq<EntityTypeView>,
    components: Seq<ComponentView>,
) -> bool {
    endpoint_known(declared.outbound_type, entity_types, components) && endpoint_known(
        declared.inbound_type,
        entity_types,
        components,
    )
}

/// What the registry stores for `declared`: the identifier is derived from
/// the name, and the properties of every known component that the type
/// refers to follow the declared ones.
pub open spec fn registered_relation_type(
    declared: RelationTypeView,
    components: Seq<ComponentView>,
) -> RelationTypeView {
    RelationTypeView {
        identifier: declared.name,
        properties: composed_properties(declared.properties, declared.components, components),
        ..declared
    }
}

/// Whether every record of `types` carries the identifier of its name.
pub open spec fn relation_types_identified(types: Seq<RelationTypeView>) -> bool {
    forall|i: int|
        0 <= i < types.len() ==> (#[trigger] types[i]).identifier == types[i].name
            && valid_identifier(types[i].name)
}

/// The first of `types` that is called `name`.
pub open spec fn find_relation_type(types: Seq<RelationTypeView>, name: Seq<char>) -> Option<
    RelationTypeView,
> {
    let place = first_position(relation_names(types), name);
    if place < types.len() {
        Some(types[place])
    } else {
        None
    }
}

/// The record that stands for the relation called `name`: the first of
/// `types` with exactly that name; where there is none, the first of
/// `types` whose name `name` begins with, under `name` as its full name.
pub open spec fn find_relation_type_starts_with(
    types: Seq<RelationTypeView>,
    name: Seq<char>,
) -> Option<RelationTypeView> {
    match find_relation_type(types, name) {
        Some(exact) => Some(exact),
        None => {
            let place = first_prefix_position(relation_names(types), name);
            if place < types.len() {
                Some(RelationTypeView { full_name: name, ..types[place] })
            } else {
                None
            }
        },
    }
}

/// The records of `types` whose name `pattern` matches, in their order.
pub open spec fn relation_types_matching(types: Seq<RelationTypeView>, pattern: Seq<char>) -> Seq<
    RelationTypeView,
> {
    types.filter(|relation_type: RelationTypeView| wildcard_matches(pattern, relation_type.name))
}

/// The records of `types` that are not called `name`, in their order.
pub open spec fn relation_types_without(types: Seq<RelationTypeView>, name: Seq<char>) -> Seq<
    RelationTypeView,
> {
    types.filter(|relation_type: RelationTypeView| relation_type.name != name)
}

/// What the registry holds after it was offered `declared`: the record is
/// stored, composed, where its name is an identifier and both its ends are
/// known, and passed over otherwise.
pub open spec fn relation_types_with(
    types: Seq<RelationTypeView>,
    declared: RelationTypeView,
    entity_types: Seq<EntityTypeView>,
    components: Seq<ComponentView>,
) -> Seq<RelationTypeView> {
    if valid_identifier(declared.name) && relation_type_admitted(
        declared,
        entity_types,
        components,
    ) {
        types.push(registered_relation_type(declared, components))
    } else {
        types
    }
}

/// The events that the registry has told of after it was offered
/// `declared`.
pub open spec fn relation_events_with(
    told: Seq<SystemEventView>,
    declared: RelationTypeView,
    entity_types: Seq<EntityTypeView>,
    components: Seq<ComponentView>,
) -> Seq<SystemEventView> {
    if valid_identifier(declared.name) && relation_type_admitted(
        declared,
        entity_types,
        components,
    ) {
        told.push(SystemEventView::RelationTypeCreated(declared.name))
    } else {
        told
    }
}

/// What the registry holds after it was offered `offered` one after the
/// other.
pub open spec fn relation_types_with_all(
    types: Seq<RelationTypeView>,
    offered: Seq<RelationTypeView>,
    entity_types: Seq<EntityTypeView>,
    components: Seq<ComponentView>,
) -> Seq<RelationTypeView>
    decreases offered.len(),
{
    if offered.len() == 0 {
        types
    } else {
        relation_types_with(
            relation_types_with_all(types, offered.drop_last(), entity_types, components),
            offered.last(),
            entity_types,
            components,
        )
    }
}

/// The events that the registry has told of after it was offered `offered`
/// one after the other.
pub open spec fn relation_events_with_all(
    told: Seq<SystemEventView>,
    offered: Seq<RelationTypeView>,
    entity_types: Seq<EntityTypeView>,
    components: Seq<ComponentView>,
) -> Seq<SystemEventView>
    decreases offered.len(),
{
    if offered.len() == 0 {
        told
    } else {
        relation_events_with(
            relation_events_with_all(told, offered.drop_last(), entity_types, components),
            offered.last(),
            entity_types,
            components,
        )
    }
}

/// Whether a registry that held `before` and had told `told` holds `after`
/// and has told `told_after` once it has asked `provider` for its relation
/// types and offered each of them for registration, one after the other,
/// with `entity_types` and `components` to check their ends against and
/// `components` to compose them of.
pub open spec fn relation_types_supplied<P: RelationTypeProvider>(
    before: Seq<RelationTypeView>,
    told: Seq<SystemEventView>,
    after: Seq<RelationTypeView>,
    told_after: Seq<SystemEventView>,
    entity_types: Seq<EntityTypeView>,
    components: Seq<ComponentView>,
    provider: P,
) -> bool {
    exists|supplied: Vec<RelationType>|
        {
            &&& #[trigger] call_ensures(P::get_relation_types, (&provider,), supplied)
            &&& after == relation_types_with_all(
                before,
                supplied.deep_view(),
                entity_types,
                components,
            )
            &&& told_after == relation_events_with_all(
                told,
                supplied.deep_view(),
                entity_types,
                components,
            )
        }
}

/// Offering records for registration only ever appends to what is stored
/// and to what was told.
pub proof fn lemma_relation_offering_extends(
    types: Seq<RelationTypeView>,
    told: Seq<SystemEventView>,
    offered: Seq<RelationTypeView>,
    entity_types: Seq<EntityTypeView>,
    components: Seq<ComponentView>,
)
    ensures
        types.is_prefix_of(relation_types_with_all(types, offered, entity_types, components)),
        told.is_prefix_of(relation_events_with_all(told, offered, entity_types, components)),
    decreases offered.len(),
{
    if offered.len() > 0 {
        lemma_relation_offering_extends(
            types,
            told,
            offered.drop_last(),
            entity_types,
            components,
        );
    }
}

} // verus!
