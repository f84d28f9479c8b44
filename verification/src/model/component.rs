//! Components: named, reusable bundles of property declarations.

use vstd::prelude::*;

use crate::model::property_type::{
    clone_extensions, clone_properties, Extension, ExtensionView, PropertyType, PropertyTypeView,
};
use crate::names::first_position;

verus! {

/// A named bundle of property declarations and extensions that types
/// compose themselves of.
#[derive(Debug, PartialEq, Eq)]
pub struct Component {
    pub name: String,
    pub description: String,
    pub properties: Vec<PropertyType>,
    pub extensions: Vec<Extension>,
}

/// The mathematical value of a [`Component`].
pub struct ComponentView {
    pub name: Seq<char>,
    pub description: Seq<char>,
    pub properties: Seq<PropertyTypeView>,
    pub extensions: Seq<ExtensionView>,
}

impl View for Component {
    type V = ComponentView;

    open spec fn view(&self) -> ComponentView {
        ComponentView {
            name: self.name@,
            description: self.description@,
            properties: self.properties.deep_view(),
            extensions: self.extensions.deep_view(),
        }
    }
}

impl DeepView for Component {
    type V = ComponentView;

    open spec fn deep_view(&self) -> ComponentView {
        self@
    }
}

impl Clone for Component {
    fn clone(&self) -> (copy: Self)
        ensures
            copy@ == self@,
    {
        Component {
            name: self.name.clone(),
            description: self.description.clone(),
            properties: clone_properties(&self.properties),
            extensions: clone_extensions(&self.extensions),
        }
    }
}

impl Component {
    /// A component called `name` that declares `properties`.
    pub fn new(name: String, properties: Vec<PropertyType>) -> (made: Self)
        ensures
            made@ == (ComponentView {
                name: name@,
                description: Seq::<char>::empty(),
                properties: properties.deep_view(),
                extensions: Seq::<ExtensionView>::empty(),
            }),
    {
        let made = Component {
            name,
            description: String::new(),
            properties,
            extensions: Vec::new(),
        };
        assert(made.extensions.deep_view() =~= Seq::<ExtensionView>::empty());
        made
    }
}

/// The names of `components`, in their order.
pub open spec fn component_names(components: Seq<ComponentView>) -> Seq<Seq<char>> {
    Seq::new(components.len(), |i: int| components[i].name)
}

/// The first of `components` that is called `name`.
pub open spec fn find_component(components: Seq<ComponentView>, name: Seq<char>) -> Option<
    ComponentView,
> {
    let place = first_position(component_names(components), name);
    if place < components.len() {
        Some(components[place])
    } else {
        None
    }
}

/// The property list of a type that declares `declared` itself and refers
/// to the components called `referenced`: the declared properties, followed
/// by the properties of each referenced component that `components` knows,
/// in the order of the references. A reference to an unknown component adds
/// nothing.
pub open spec fn composed_properties(
    declared: Seq<PropertyTypeView>,
    referenced: Seq<Seq<char>>,
    components: Seq<ComponentView>,
) -> Seq<PropertyTypeView>
    decreases referenced.len(),
{
    if referenced.len() == 0 {
        declared
    } else {
        let before = composed_properties(declared, referenced.drop_last(), components);
        match find_component(components, referenced.last()) {
            Some(component) => before + component.properties,
            None => before,
        }
    }
}

/// Composition keeps what was there: the declared properties open the
/// composed list.
pub proof fn lemma_composition_keeps_declared(
    declared: Seq<PropertyTypeView>,
    referenced: Seq<Seq<char>>,
    components: Seq<ComponentView>,
)
    ensures
        declared.is_prefix_of(composed_properties(declared, referenced, components)),
    decreases referenced.len(),
{
    if referenced.len() > 0 {
        lemma_composition_keeps_declared(declared, referenced.drop_last(), components);
    }
}

/// Composition takes every property of every known component that the type
/// refers to, and drops none of the declared ones.
pub proof fn lemma_composition_is_superset(
    declared: Seq<PropertyTypeView>,
    referenced: Seq<Seq<char>>,
    components: Seq<ComponentView>,
)
    ensures
        forall|p: PropertyTypeView| #[trigger]
            declared.contains(p) ==> composed_properties(declared, referenced, components).contains(
                p,
            ),
        forall|k: int, p: PropertyTypeView|
            0 <= k < referenced.len() && (#[trigger] find_component(
                components,
                referenced[k],
            )) is Some && find_component(components, referenced[k])->0.properties.contains(p)
                ==> #[trigger] composed_properties(declared, referenced, components).contains(p),
    decreases referenced.len(),
{
    let composed = composed_properties(declared, referenced, components);
    if referenced.len() == 0 {
    } else {
        let earlier = referenced.drop_last();
        let before = composed_properties(declared, earlier, components);
        lemma_composition_is_superset(declared, earlier, components);
        assert forall|p: PropertyTypeView| before.contains(p) implies composed.contains(p) by {
            let i = choose|i: int| 0 <= i < before.len() && before[i] == p;
            assert(composed[i] == p);
        }
        assert forall|k: int, p: PropertyTypeView|
            0 <= k < referenced.len() && (#[trigger] find_component(
                components,
                referenced[k],
            )) is Some && find_component(components, referenced[k])->0.properties.contains(
                p,
            ) implies #[trigger] composed.contains(p) by {
            if k < earlier.len() {
                assert(earlier[k] == referenced[k]);
                assert(before.contains(p));
            } else {
                let component = find_component(components, referenced.last())->0;
                let i = choose|i: int|
                    0 <= i < component.properties.len() && component.properties[i] == p;
                assert(composed[before.len() + i] == p);
            }
        }
    }
}

} // verus!
