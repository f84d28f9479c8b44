//! What holds of the registries whatever they store.
//!
//! Each statement here is proved from the contracts of the registry
//! functions: it speaks of the stored records as those contracts do.

use vstd::prelude::*;

use crate::api::entity_type_manager::{
    entity_types_identified, entity_types_matching, entity_types_without, find_entity_type,
    registered_entity_type,
};
use crate::api::relation_type_manager::{
    endpoint_known, find_relation_type, find_relation_type_starts_with, registered_relation_type,
    relation_type_admitted, relation_types_identified, relation_types_matching,
    relation_types_with, relation_types_without,
};
use crate::identifier::valid_identifier;
use crate::model::component::{
    composed_properties, find_component, lemma_composition_is_superset,
    lemma_composition_keeps_declared, ComponentView,
};
use crate::model::entity_type::{entity_type_names, EntityTypeView};
use crate::model::property_type::PropertyTypeView;
use crate::model::relation_type::{relation_names, RelationTypeView};
use crate::names::{
    first_position, first_prefix_position, lemma_absent, lemma_first_position,
    lemma_first_position_push, lemma_first_prefix_position,
};
use crate::sequences::lemma_filter_agree;
use crate::wildcard::{
    lemma_literal_matches_itself, lemma_prefix_pattern, literal_text, wildcard_matches,
};

verus! {

/// A name that no stored entity type bears is unknown. Once a type of that
/// name is registered it is known, and the registration changes nothing
/// for any other name.
pub proof fn law_registration_makes_known(
    types: Seq<EntityTypeView>,
    declared: EntityTypeView,
    components: Seq<ComponentView>,
    other: Seq<char>,
)
    ensures
        !entity_type_names(types).contains(declared.name) ==> find_entity_type(
            types,
            declared.name,
        ) is None,
        find_entity_type(
            types.push(registered_entity_type(declared, components)),
            declared.name,
        ) is Some,
        other != declared.name ==> (find_entity_type(
            types.push(registered_entity_type(declared, components)),
            other,
        ) is Some <==> find_entity_type(types, other) is Some),
{
    let stored = registered_entity_type(declared, components);
    let after = types.push(stored);
    let names = entity_type_names(types);
    assert(entity_type_names(after) =~= names.push(declared.name));
    lemma_first_position(names, declared.name);
    lemma_first_position(names, other);
    lemma_first_position_push(names, declared.name, declared.name);
    lemma_first_position_push(names, declared.name, other);
}

/// The identifier of a stored entity type is its name: whoever looks a name
/// up gets a record with that name as identifier, and two registrations
/// under one name store two records with equal identifiers.
pub proof fn law_identifier_follows_name(
    types: Seq<EntityTypeView>,
    name: Seq<char>,
    first: EntityTypeView,
    second: EntityTypeView,
    components: Seq<ComponentView>,
)
    requires
        entity_types_identified(types),
    ensures
        find_entity_type(types, name) matches Some(record) ==> record.name == name
            && record.identifier == name,
        first.name == second.name ==> {
            let twice = types.push(registered_entity_type(first, components)).push(
                registered_entity_type(second, components),
            );
            &&& twice.len() == types.len() + 2
            &&& twice[types.len() as int].identifier == twice[types.len() as int + 1].identifier
        },
{
    let names = entity_type_names(types);
    lemma_first_position(names, name);
    if first_position(names, name) < types.len() {
        let place = first_position(names, name);
        assert(names[place] == types[place].name);
        assert(types[place].identifier == types[place].name);
    }
}

/// A registered entity type holds the properties that it declared, in
/// their order and before all others, and every property of every known
/// component that it refers to.
pub proof fn law_composition_is_superset(
    declared: EntityTypeView,
    components: Seq<ComponentView>,
    k: int,
    property: PropertyTypeView,
)
    ensures
        declared.properties.is_prefix_of(registered_entity_type(declared, components).properties),
        declared.properties.contains(property) ==> registered_entity_type(
            declared,
            components,
        ).properties.contains(property),
        0 <= k < declared.components.len() && find_component(
            components,
            declared.components[k],
        ) is Some && find_component(components, declared.components[k])->0.properties.contains(
            property,
        ) ==> registered_entity_type(declared, components).properties.contains(property),
{
    lemma_composition_keeps_declared(declared.properties, declared.components, components);
    lemma_composition_is_superset(declared.properties, declared.components, components);
    if 0 <= k < declared.components.len() && find_component(
        components,
        declared.components[k],
    ) is Some && find_component(components, declared.components[k])->0.properties.contains(
        property,
    ) {
        assert(composed_properties(
            declared.properties,
            declared.components,
            components,
        ).contains(property));
    }
}

/// A registered relation type holds every property that it declared, and
/// every property of every known component that it refers to.
pub proof fn law_relation_composition_is_superset(
    declared: RelationTypeView,
    components: Seq<ComponentView>,
    k: int,
    property: PropertyTypeView,
)
    ensures
        declared.properties.contains(property) ==> registered_relation_type(
            declared,
            components,
        ).properties.contains(property),
        0 <= k < declared.components.len() && find_component(
            components,
            declared.components[k],
        ) is Some && find_component(components, declared.components[k])->0.properties.contains(
            property,
        ) ==> registered_relation_type(declared, components).properties.contains(property),
{
    lemma_composition_is_superset(declared.properties, declared.components, components);
    if 0 <= k < declared.components.len() && find_component(
        components,
        declared.components[k],
    ) is Some && find_component(components, declared.components[k])->0.properties.contains(
        property,
    ) {
        assert(composed_properties(
            declared.properties,
            declared.components,
            components,
        ).contains(property));
    }
}

/// A relation type with an end that is neither the wildcard nor a known
/// entity type or component is not stored: the registry holds what it held.
/// One with two known ends and an identifier as name is stored last.
pub proof fn law_unknown_end_is_rejected(
    types: Seq<RelationTypeView>,
    declared: RelationTypeView,
    entity_types: Seq<EntityTypeView>,
    components: Seq<ComponentView>,
)
    ensures
        !endpoint_known(declared.outbound_type, entity_types, components) ==> relation_types_with(
            types,
            declared,
            entity_types,
            components,
        ) == types,
        !endpoint_known(declared.inbound_type, entity_types, components) ==> relation_types_with(
            types,
            declared,
            entity_types,
            components,
        ) == types,
        valid_identifier(declared.name) && relation_type_admitted(
            declared,
            entity_types,
            components,
        ) ==> relation_types_with(types, declared, entity_types, components).len() == types.len()
            + 1,
{
}

/// After a deletion no stored entity type bears the deleted name.
pub proof fn law_deletion_removes_all(types: Seq<EntityTypeView>, name: Seq<char>)
    ensures
        !entity_type_names(entity_types_without(types, name)).contains(name),
        find_entity_type(entity_types_without(types, name), name) is None,
{
    let kept = entity_types_without(types, name);
    let names = entity_type_names(kept);
    assert forall|j: int| 0 <= j < names.len() implies #[trigger] names[j] != name by {
        types.lemma_filter_pred(|entity_type: EntityTypeView| entity_type.name != name, j);
    }
    lemma_absent(names, name);
}

/// An exported entity type that is deleted and imported again is found
/// again as it was exported, provided that composition adds nothing to it:
/// the known components that it refers to declare no properties beyond
/// those that the record lists.
pub proof fn law_export_import_round_trip(
    types: Seq<EntityTypeView>,
    name: Seq<char>,
    exported: EntityTypeView,
    components: Seq<ComponentView>,
)
    requires
        entity_types_identified(types),
        find_entity_type(types, name) == Some(exported),
        composed_properties(exported.properties, exported.components, components)
            == exported.properties,
    ensures
        valid_identifier(exported.name),
        registered_entity_type(exported, components) == exported,
        find_entity_type(
            entity_types_without(types, name).push(registered_entity_type(exported, components)),
            name,
        ) == Some(exported),
{
    law_identifier_follows_name(types, name, exported, exported, components);
    let place = first_position(entity_type_names(types), name);
    lemma_first_position(entity_type_names(types), name);
    assert(types[place] == exported);
    law_deletion_removes_all(types, name);
    let kept = entity_types_without(types, name);
    let again = registered_entity_type(exported, components);
    assert(entity_type_names(kept.push(again)) =~= entity_type_names(kept).push(name));
    lemma_first_position_push(entity_type_names(kept), name, name);
}

/// A search for a prefix without wildcards that is followed by `*` finds
/// exactly the stored entity types whose name begins with the prefix, in
/// the order of their registration.
pub proof fn law_find_by_prefix(types: Seq<EntityTypeView>, prefix: Seq<char>)
    requires
        literal_text(prefix),
    ensures
        entity_types_matching(types, prefix.push('*')) == types.filter(
            |entity_type: EntityTypeView| prefix.is_prefix_of(entity_type.name),
        ),
{
    assert forall|i: int| 0 <= i < types.len() implies wildcard_matches(
        prefix.push('*'),
        (#[trigger] types[i]).name,
    ) == prefix.is_prefix_of(types[i].name) by {
        lemma_prefix_pattern(prefix, types[i].name);
    }
    lemma_filter_agree(
        types,
        |entity_type: EntityTypeView| wildcard_matches(prefix.push('*'), entity_type.name),
        |entity_type: EntityTypeView| prefix.is_prefix_of(entity_type.name),
    );
}

/// A search for a prefix without wildcards that is followed by `*` finds
/// exactly the stored relation types whose name begins with the prefix, in
/// the order of their registration.
pub proof fn law_find_relations_by_prefix(types: Seq<RelationTypeView>, prefix: Seq<char>)
    requires
        literal_text(prefix),
    ensures
        relation_types_matching(types, prefix.push('*')) == types.filter(
            |relation_type: RelationTypeView| prefix.is_prefix_of(relation_type.name),
        ),
{
    assert forall|i: int| 0 <= i < types.len() implies wildcard_matches(
        prefix.push('*'),
        (#[trigger] types[i]).name,
    ) == prefix.is_prefix_of(types[i].name) by {
        lemma_prefix_pattern(prefix, types[i].name);
    }
    lemma_filter_agree(
        types,
        |relation_type: RelationTypeView| wildcard_matches(prefix.push('*'), relation_type.name),
        |relation_type: RelationTypeView| prefix.is_prefix_of(relation_type.name),
    );
}

/// A relation whose name begins with the name of a stored relation type is
/// resolved: the answer is a stored record whose name the asked name begins
/// with, and where no record has exactly the asked name, the answer carries
/// the asked name as its full name and is otherwise the first such record.
pub proof fn law_resolution_by_prefix(types: Seq<RelationTypeView>, asked: Seq<char>, i: int)
    requires
        0 <= i < types.len(),
        types[i].name.is_prefix_of(asked),
    ensures
        find_relation_type_starts_with(types, asked) is Some,
        find_relation_type_starts_with(types, asked)->0.name.is_prefix_of(asked),
        find_relation_type(types, asked) is None ==> {
            let place = first_prefix_position(relation_names(types), asked);
            &&& 0 <= place <= i
            &&& find_relation_type_starts_with(types, asked) == Some(
                RelationTypeView { full_name: asked, ..types[place] },
            )
        },
{
    let names = relation_names(types);
    lemma_first_position(names, asked);
    lemma_first_prefix_position(names, asked);
    assert(names[i] == types[i].name);
    let place = first_prefix_position(names, asked);
    if place == names.len() {
        assert(!names[i].is_prefix_of(asked));
    }
    if place > i {
        assert(!names[i].is_prefix_of(asked));
    }
    assert(names[place] == types[place].name);
    if first_position(names, asked) < types.len() {
        let exact = first_position(names, asked);
        assert(names[exact] == types[exact].name);
        assert(asked.is_prefix_of(asked)) by {
            assert(asked =~= asked.subrange(0, asked.len() as int));
        }
    }
}

/// A search for a name without wildcards finds exactly the stored entity
/// types of that name, in the order of their registration.
pub proof fn law_find_by_name(types: Seq<EntityTypeView>, name: Seq<char>)
    requires
        literal_text(name),
    ensures
        entity_types_matching(types, name) == types.filter(
            |entity_type: EntityTypeView| entity_type.name == name,
        ),
{
    assert forall|i: int| 0 <= i < types.len() implies wildcard_matches(
        name,
        (#[trigger] types[i]).name,
    ) == (types[i].name == name) by {
        lemma_literal_matches_itself(name, types[i].name);
    }
    lemma_filter_agree(
        types,
        |entity_type: EntityTypeView| wildcard_matches(name, entity_type.name),
        |entity_type: EntityTypeView| entity_type.name == name,
    );
}

/// A name that no stored relation type bears is unknown. Once a type of
/// that name with two known ends is registered it is known, and the
/// registration changes nothing for any other name.
pub proof fn law_relation_registration_makes_known(
    types: Seq<RelationTypeView>,
    declared: RelationTypeView,
    entity_types: Seq<EntityTypeView>,
    components: Seq<ComponentView>,
    other: Seq<char>,
)
    requires
        valid_identifier(declared.name),
        relation_type_admitted(declared, entity_types, components),
    ensures
        !relation_names(types).contains(declared.name) ==> find_relation_type(
            types,
            declared.name,
        ) is None,
        find_relation_type(
            relation_types_with(types, declared, entity_types, components),
            declared.name,
        ) is Some,
        other != declared.name ==> (find_relation_type(
            relation_types_with(types, declared, entity_types, components),
            other,
        ) is Some <==> find_relation_type(types, other) is Some),
{
    let after = relation_types_with(types, declared, entity_types, components);
    let names = relation_names(types);
    assert(relation_names(after) =~= names.push(declared.name));
    lemma_first_position(names, declared.name);
    lemma_first_position(names, other);
    lemma_first_position_push(names, declared.name, declared.name);
    lemma_first_position_push(names, declared.name, other);
}

/// After a deletion no stored relation type bears the deleted name.
pub proof fn law_relation_deletion_removes_all(types: Seq<RelationTypeView>, name: Seq<char>)
    ensures
        !relation_names(relation_types_without(types, name)).contains(name),
        find_relation_type(relation_types_without(types, name), name) is None,
{
    let kept = relation_types_without(types, name);
    let names = relation_names(kept);
    assert forall|j: int| 0 <= j < names.len() implies #[trigger] names[j] != name by {
        types.lemma_filter_pred(|relation_type: RelationTypeView| relation_type.name != name, j);
    }
    lemma_absent(names, name);
}

/// An exported relation type that is deleted and imported again is found
/// again as it was exported, provided that its two ends are still known and
/// that composition adds nothing to it: the known components that it
/// refers to declare no properties beyond those that the record lists.
pub proof fn law_relation_export_import_round_trip(
    types: Seq<RelationTypeView>,
    name: Seq<char>,
    exported: RelationTypeView,
    entity_types: Seq<EntityTypeView>,
    components: Seq<ComponentView>,
)
    requires
        relation_types_identified(types),
        find_relation_type(types, name) == Some(exported),
        relation_type_admitted(exported, entity_types, components),
        composed_properties(exported.properties, exported.components, components)
            == exported.properties,
    ensures
        valid_identifier(exported.name),
        registered_relation_type(exported, components) == exported,
        find_relation_type(
            relation_types_with(
                relation_types_without(types, name),
                exported,
                entity_types,
                components,
            ),
            name,
        ) == Some(exported),
{
    let names = relation_names(types);
    lemma_first_position(names, name);
    let place = first_position(names, name);
    assert(names[place] == types[place].name);
    assert(types[place] == exported);
    assert(exported.identifier == exported.name);
    law_relation_deletion_removes_all(types, name);
    let kept = relation_types_without(types, name);
    let again = registered_relation_type(exported, components);
    assert(relation_names(kept.push(again)) =~= relation_names(kept).push(name));
    lemma_first_position_push(relation_names(kept), name, name);
}

} // verus!
