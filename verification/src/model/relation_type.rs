//! Relation types.

use vstd::prelude::*;

use crate::model::property_type::{
    clone_extensions, clone_names, clone_properties, Extension, ExtensionView, PropertyType,
    PropertyTypeView,
};

verus! {

/// The definition of a kind of relation between two entities.
///
/// `outbound_type` and `inbound_type` name an entity type or a component,
/// or hold the wildcard `*`. `identifier` is empty until the type is
/// registered. `full_name` equals `name` unless a lookup by prefix
/// answered with this record: then it holds the name that was asked for.
#[derive(Debug, PartialEq, Eq)]
pub struct RelationType {
    pub outbound_type: String,
    pub name: String,
    pub full_name: String,
    pub inbound_type: String,
    pub description: String,
    pub components: Vec<String>,
    pub properties: Vec<PropertyType>,
    pub extensions: Vec<Extension>,
    pub identifier: String,
}

/// The mathematical value of a [`RelationType`].
pub struct RelationTypeView {
    pub outbound_type: Seq<char>,
    pub name: Seq<char>,
    pub full_name: Seq<char>,
    pub inbound_type: Seq<char>,
    pub description: Seq<char>,
    pub components: Seq<Seq<char>>,
    pub properties: Seq<PropertyTypeView>,
    pub extensions: Seq<ExtensionView>,
    pub identifier: Seq<char>,
}

impl View for RelationType {
    type V = RelationTypeView;

    open spec fn view(&self) -> RelationTypeView {
        RelationTypeView {
            outbound_type: self.outbound_type@,
            name: self.name@,
            full_name: self.full_name@,
            inbound_type: self.inbound_type@,
            description: self.description@,
            components: self.components.deep_view(),
            properties: self.properties.deep_view(),
            extensions: self.extensions.deep_view(),
            identifier: self.identifier@,
        }
    }
}

impl DeepView for RelationType {
    type V = RelationTypeView;

    open spec fn deep_view(&self) -> RelationTypeView {
        self@
    }
}

impl Clone for RelationType {
    fn clone(&self) -> (copy: Self)
        ensures
            copy@ == self@,
    {
        RelationType {
            outbound_type: self.outbound_type.clone(),
            name: self.name.clone(),
            full_name: self.full_name.clone(),
            inbound_type: self.inbound_type.clone(),
            description: self.description.clone(),
            components: clone_names(&self.components),
            properties: clone_properties(&self.properties),
            extensions: clone_extensions(&self.extensions),
            identifier: self.identifier.clone(),
        }
    }
}

impl RelationType {
    /// A relation type that is not registered yet; its full name is its
    /// name.
    pub fn new(
        outbound_type: String,
        name: String,
        inbound_type: String,
        description: String,
        components: Vec<String>,
        properties: Vec<PropertyType>,
        extensions: Vec<Extension>,
    ) -> (made: Self)
        ensures
            made@ == (RelationTypeView {
                outbound_type: outbound_type@,
                name: name@,
                full_name: name@,
                inbound_type: inbound_type@,
                description: description@,
                components: components.deep_view(),
                properties: properties.deep_view(),
                extensions: extensions.deep_view(),
                identifier: Seq::<char>::empty(),
            }),
    {
        let full_name = name.clone();
        RelationType {
            outbound_type,
            name,
            full_name,
            inbound_type,
            description,
            components,
            properties,
            extensions,
            identifier: String::new(),
        }
    }
}

/// The names of `types`, in their order.
pub open spec fn relation_names(types: Seq<RelationTypeView>) -> Seq<Seq<char>> {
    Seq::new(types.len(), |i: int| types[i].name)
}

} // verus!
