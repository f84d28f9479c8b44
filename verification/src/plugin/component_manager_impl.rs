//! The component registry as plugins see it.

use vstd::prelude::*;

use crate::api::system_event::SystemEventView;
use crate::implementation::component_manager_impl::{
    components_matching, components_without, ComponentManagerImpl as ComponentRegistry,
};
use crate::model::component::{component_names, find_component, Component, ComponentView};
use crate::model::property_type::{Extension, PropertyType};

verus! {

/// A facade over the component registry. A plugin may look components up,
/// create and delete them; it may not register providers.
pub struct ComponentManagerImpl {
    component_manager: ComponentRegistry,
}

impl ComponentManagerImpl {
    /// The registry behind the facade.
    pub closed spec fn inner(&self) -> ComponentRegistry {
        self.component_manager
    }

    /// A facade over `component_manager`.
    pub fn new(component_manager: ComponentRegistry) -> (facade: Self)
        ensures
            facade.inner() == component_manager,
    {
        ComponentManagerImpl { component_manager }
    }

    /// Takes the facade away and hands back the registry behind it.
    pub fn into_inner(self) -> (component_manager: ComponentRegistry)
        ensures
            component_manager == self.inner(),
    {
        self.component_manager
    }

    /// The registry behind the facade, to compose types of.
    pub fn registry(&self) -> (component_manager: &ComponentRegistry)
        ensures
            *component_manager == self.inner(),
    {
        &self.component_manager
    }

    /// All registered components, in the order of their registration.
    pub fn get_components(&self) -> (all: Vec<Component>)
        ensures
            all.deep_view() == self.inner().components(),
    {
        self.component_manager.get_components()
    }

    /// Whether a component called `name` is registered.
    pub fn has(&self, name: String) -> (known: bool)
        ensures
            known == component_names(self.inner().components()).contains(name@),
            known == find_component(self.inner().components(), name@) is Some,
    {
        self.component_manager.has(name)
    }

    /// The first registered component called `name`.
    pub fn get(&self, name: String) -> (found: Option<Component>)
        ensures
            match found {
                Some(component) => find_component(self.inner().components(), name@) == Some(
                    component@,
                ),
                None => find_component(self.inner().components(), name@) is None,
            },
    {
        self.component_manager.get(name)
    }

    /// The registered components whose name the wildcard pattern `search`
    /// matches, in the order of their registration.
    pub fn find(&self, search: String) -> (found: Vec<Component>)
        ensures
            found.deep_view() == components_matching(self.inner().components(), search@),
    {
        self.component_manager.find(search)
    }

    /// Builds a component of the given parts and registers it.
    pub fn create(&mut self, name: String, properties: Vec<PropertyType>, extensions: Vec<Extension>)
        ensures
            final(self).inner().components() == old(self).inner().components().push(
                ComponentView {
                    name: name@,
                    description: Seq::<char>::empty(),
                    properties: properties.deep_view(),
                    extensions: extensions.deep_view(),
                },
            ),
            final(self).inner().emitted() == old(self).inner().emitted().push(
                SystemEventView::ComponentCreated(name@),
            ),
    {
        self.component_manager.create(name, properties, extensions);
    }

    /// Registers a component that was read from a file, where there is
    /// one. A plugin is not told how the import went.
    pub fn import(&mut self, decoded: Option<Component>)
        ensures
            final(self).inner().components() == if decoded is Some {
                old(self).inner().components().push(decoded->0@)
            } else {
                old(self).inner().components()
            },
            final(self).inner().emitted() == if decoded is Some {
                old(self).inner().emitted().push(
                    SystemEventView::ComponentCreated(decoded->0@.name),
                )
            } else {
                old(self).inner().emitted()
            },
    {
        let _ = self.component_manager.import(decoded);
    }

    /// The component to write where the component called `name` is
    /// exported: the first registered component of that name, if there is
    /// one.
    pub fn export(&self, name: String) -> (exported: Option<Component>)
        ensures
            match exported {
                Some(component) => find_component(self.inner().components(), name@) == Some(
                    component@,
                ),
                None => find_component(self.inner().components(), name@) is None,
            },
    {
        self.component_manager.export(name)
    }

    /// Removes every component called `name`, and tells of the deletion
    /// whether or not there was one.
    pub fn delete(&mut self, name: String)
        ensures
            final(self).inner().components() == components_without(
                old(self).inner().components(),
                name@,
            ),
            final(self).inner().emitted() == old(self).inner().emitted().push(
                SystemEventView::ComponentDeleted(name@),
            ),
    {
        self.component_manager.delete(name);
    }
}

} // verus!
