//! Entity types.

use vstd::prelude::*;

use crate::model::property_type::{
    clone_extensions, clone_names, clone_properties, Extension, ExtensionView, PropertyType,
    PropertyTypeView,
};

verus! {

/// The definition of a kind of entity.
///
/// `identifier` is empty until the type is registered; the registry derives
/// it from `name`.
#[derive(Debug, PartialEq, Eq)]
pub struct EntityType {
    pub name: String,
    pub group: String,
    pub description: String,
    pub components: Vec<String>,
    pub behaviours: Vec<String>,
    pub properties: Vec<PropertyType>,
    pub extensions: Vec<Extension>,
    pub identifier: String,
}

/// The mathematical value of an [`EntityType`].
pub struct EntityTypeView {
    pub name: Seq<char>,
    pub group: Seq<char>,
    pub description: Seq<char>,
    pub components: Seq<Seq<char>>,
    pub behaviours: Seq<Seq<char>>,
    pub properties: Seq<PropertyTypeView>,
    pub extensions: Seq<ExtensionView>,
    pub identifier: Seq<char>,
}

impl View for EntityType {
    type V = EntityTypeView;

    open spec fn view(&self) -> EntityTypeView {
        EntityTypeView {
            name: self.name@,
            group: self.group@,
            description: self.description@,
            components: self.components.deep_view(),
            behaviours: self.behaviours.deep_view(),
            properties: self.properties.deep_view(),
            extensions: self.extensions.deep_view(),
            identifier: self.identifier@,
        }
    }
}

impl DeepView for EntityType {
    type V = EntityTypeView;

    open spec fn deep_view(&self) -> EntityTypeView {
        self@
    }
}

impl Clone for EntityType {
    fn clone(&self) -> (copy: Self)
        ensures
            copy@ == self@,
    {
        EntityType {
            name: self.name.clone(),
            group: self.group.clone(),
            description: self.description.clone(),
            components: clone_names(&self.components),
            behaviours: clone_names(&self.behaviours),
            properties: clone_properties(&self.properties),
            extensions: clone_extensions(&self.extensions),
            identifier: self.identifier.clone(),
        }
    }
}

impl EntityType {
    /// An entity type that is not registered yet.
    pub fn new(
        name: String,
        group: String,
        description: String,
        components: Vec<String>,
        behaviours: Vec<String>,
        properties: Vec<PropertyType>,
        extensions: Vec<Extension>,
    ) -> (made: Self)
        ensures
            made@ == (EntityTypeView {
                name: name@,
                group: group@,
                description: description@,
                components: components.deep_view(),
                behaviours: behaviours.deep_view(),
                properties: properties.deep_view(),
                extensions: extensions.deep_view(),
                identifier: Seq::<char>::empty(),
            }),
    {
        EntityType {
            name,
            group,
            description,
            components,
            behaviours,
            properties,
            extensions,
            identifier: String::new(),
        }
    }
}

/// Puts an entity type together part by part.
pub struct EntityTypeBuilder {
    name: String,
    group: String,
    description: String,
    components: Vec<String>,
    behaviours: Vec<String>,
    properties: Vec<PropertyType>,
    extensions: Vec<Extension>,
}

impl View for EntityTypeBuilder {
    type V = EntityTypeView;

    /// The entity type that [`EntityTypeBuilder::build`] would make now.
    closed spec fn view(&self) -> EntityTypeView {
        EntityTypeView {
            name: self.name@,
            group: self.group@,
            description: self.description@,
            components: self.components.deep_view(),
            behaviours: self.behaviours.deep_view(),
            properties: self.properties.deep_view(),
            extensions: self.extensions.deep_view(),
            identifier: Seq::<char>::empty(),
        }
    }
}

impl EntityTypeBuilder {
    /// Begins an entity type called `name`, with nothing else in it.
    pub fn new(name: &str) -> (builder: Self)
        ensures
            builder@ == (EntityTypeView {
                name: name@,
                group: Seq::<char>::empty(),
                description: Seq::<char>::empty(),
                components: Seq::<Seq<char>>::empty(),
                behaviours: Seq::<Seq<char>>::empty(),
                properties: Seq::<PropertyTypeView>::empty(),
                extensions: Seq::<ExtensionView>::empty(),
                identifier: Seq::<char>::empty(),
            }),
    {
        let builder = EntityTypeBuilder {
            name: name.to_owned(),
            group: String::new(),
            description: String::new(),
            components: Vec::new(),
            behaviours: Vec::new(),
            properties: Vec::new(),
            extensions: Vec::new(),
        };
        assert(builder.components.deep_view() =~= Seq::<Seq<char>>::empty());
        assert(builder.behaviours.deep_view() =~= Seq::<Seq<char>>::empty());
        assert(builder.properties.deep_view() =~= Seq::<PropertyTypeView>::empty());
        assert(builder.extensions.deep_view() =~= Seq::<ExtensionView>::empty());
        builder
    }

    /// Puts the type into `group`.
    pub fn group(self, group: &str) -> (builder: Self)
        ensures
            builder@ == (EntityTypeView { group: group@, ..self@ }),
    {
        let mut builder = self;
        builder.group = group.to_owned();
        builder
    }

    /// Describes the type.
    pub fn description(self, description: &str) -> (builder: Self)
        ensures
            builder@ == (EntityTypeView { description: description@, ..self@ }),
    {
        let mut builder = self;
        builder.description = description.to_owned();
        builder
    }

    /// Refers to the component called `name`, behind the earlier references.
    pub fn component(self, name: &str) -> (builder: Self)
        ensures
            builder@ == (EntityTypeView { components: self@.components.push(name@), ..self@ }),
    {
        let mut builder = self;
        builder.components.push(name.to_owned());
        assert(builder.components.deep_view() =~= self.components.deep_view().push(name@));
        builder
    }

    /// Names a behaviour of the type, behind the earlier ones.
    pub fn behaviour(self, name: &str) -> (builder: Self)
        ensures
            builder@ == (EntityTypeView { behaviours: self@.behaviours.push(name@), ..self@ }),
    {
        let mut builder = self;
        builder.behaviours.push(name.to_owned());
        assert(builder.behaviours.deep_view() =~= self.behaviours.deep_view().push(name@));
        builder
    }

    /// Declares a property, behind the earlier ones.
    pub fn property(self, property: PropertyType) -> (builder: Self)
        ensures
            builder@ == (EntityTypeView { properties: self@.properties.push(property@), ..self@ }),
    {
        let mut builder = self;
        builder.properties.push(property);
        assert(builder.properties.deep_view() =~= self.properties.deep_view().push(property@));
        builder
    }

    /// Attaches an extension, behind the earlier ones.
    pub fn extension(self, extension: Extension) -> (builder: Self)
        ensures
            builder@ == (EntityTypeView { extensions: self@.extensions.push(extension@), ..self@ }),
    {
        let mut builder = self;
        builder.extensions.push(extension);
        assert(builder.extensions.deep_view() =~= self.extensions.deep_view().push(extension@));
        builder
    }

    /// The entity type that was put together. It is not registered yet.
    pub fn build(self) -> (made: EntityType)
        ensures
            made@ == self@,
    {
        EntityType::new(
            self.name,
            self.group,
            self.description,
            self.components,
            self.behaviours,
            self.properties,
            self.extensions,
        )
    }
}

/// The names of `types`, in their order.
pub open spec fn entity_type_names(types: Seq<EntityTypeView>) -> Seq<Seq<char>> {
    Seq::new(types.len(), |i: int| types[i].name)
}

} // verus!
