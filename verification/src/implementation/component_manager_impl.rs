//! The registry of components.

use vstd::prelude::*;

use crate::api::component_manager::ComponentImportError;
use crate::api::system_event::{SystemEvent, SystemEventManager, SystemEventView};
use crate::model::component::{
    component_names, composed_properties, find_component, Component, ComponentView,
};
use crate::model::property_type::{clone_properties, Extension, PropertyType};
use crate::names::{lemma_absent, lemma_first_position, lemma_is_first};
use crate::plugins::component_provider::ComponentProvider;
use crate::sequences::{lemma_filter_empty, lemma_filter_take};
use crate::wildcard::{matches_wildcard, wildcard_matches};

verus! {

/// The components of `components` whose name `pattern` matches, in their
/// order.
pub open spec fn components_matching(components: Seq<ComponentView>, pattern: Seq<char>) -> Seq<
    ComponentView,
> {
    components.filter(|component: ComponentView| wildcard_matches(pattern, component.name))
}

/// The components of `components` that are not called `name`, in their
/// order.
pub open spec fn components_without(components: Seq<ComponentView>, name: Seq<char>) -> Seq<
    ComponentView,
> {
    components.filter(|component: ComponentView| component.name != name)
}

/// What the registry holds after it has registered `added` one after the
/// other.
pub open spec fn components_with_all(components: Seq<ComponentView>, added: Seq<ComponentView>) -> Seq<
    ComponentView,
> {
    components + added
}

/// The events that tell of the creation of `added`, in their order.
pub open spec fn component_creations(added: Seq<ComponentView>) -> Seq<SystemEventView> {
    Seq::new(added.len(), |i: int| SystemEventView::ComponentCreated(added[i].name))
}

/// Whether a registry that held `before` and had told `told` holds `after`
/// and has told `told_after` once it has asked `provider` for its
/// components and registered each of them, one after the other.
pub open spec fn components_supplied<P: ComponentProvider>(
    before: Seq<ComponentView>,
    told: Seq<SystemEventView>,
    after: Seq<ComponentView>,
    told_after: Seq<SystemEventView>,
    provider: P,
) -> bool {
    exists|supplied: Vec<Component>|
        {
            &&& #[trigger] call_ensures(P::get_components, (&provider,), supplied)
            &&& after == components_with_all(before, supplied.deep_view())
            &&& told_after == told + component_creations(supplied.deep_view())
        }
}

/// The registry of components, in the order of their registration.
pub struct ComponentManagerImpl {
    event_manager: SystemEventManager,
    components: Vec<Component>,
}

impl ComponentManagerImpl {
    /// The registered components, in the order of their registration.
    pub closed spec fn components(&self) -> Seq<ComponentView> {
        self.components.deep_view()
    }

    /// The events that the registry has emitted and nobody has taken yet.
    pub closed spec fn emitted(&self) -> Seq<SystemEventView> {
        self.event_manager.emitted()
    }

    /// A registry without components.
    pub fn new() -> (made: Self)
        ensures
            made.components() == Seq::<ComponentView>::empty(),
            made.emitted() == Seq::<SystemEventView>::empty(),
    {
        let made = ComponentManagerImpl {
            event_manager: SystemEventManager::new(),
            components: Vec::new(),
        };
        assert(made.components.deep_view() =~= Seq::<ComponentView>::empty());
        made
    }

    /// Stores `component` behind the components that are there, tells of
    /// its creation, and hands back what was stored.
    pub fn register(&mut self, component: Component) -> (stored: Component)
        ensures
            stored@ == component@,
            final(self).components() == old(self).components().push(component@),
            final(self).emitted() == old(self).emitted().push(
                SystemEventView::ComponentCreated(component@.name),
            ),
    {
        let stored = component.clone();
        let event = SystemEvent::ComponentCreated(component.name.clone());
        self.components.push(component);
        assert(self.components.deep_view() =~= old(self).components.deep_view().push(stored@));
        self.event_manager.emit_event(event);
        stored
    }

    /// All registered components, in the order of their registration.
    pub fn get_components(&self) -> (all: Vec<Component>)
        ensures
            all.deep_view() == self.components(),
    {
        let mut all: Vec<Component> = Vec::new();
        let mut i: usize = 0;
        while i < self.components.len()
            invariant
                i <= self.components.len(),
                all.deep_view() == self.components.deep_view().take(i as int),
            decreases self.components.len() - i,
        {
            let ghost before = all.deep_view();
            all.push(self.components[i].clone());
            assert(all.deep_view() == before.push(self.components[i as int]@));
            i = i + 1;
        }
        assert(self.components.deep_view().take(i as int) == self.components.deep_view());
        all
    }

    /// Whether a component called `name` is registered.
    pub fn has(&self, name: String) -> (known: bool)
        ensures
            known == component_names(self.components()).contains(name@),
            known == find_component(self.components(), name@) is Some,
    {
        proof {
            lemma_first_position(component_names(self.components()), name@);
        }
        self.get(name).is_some()
    }

    /// The first registered component called `name`.
    pub fn get(&self, name: String) -> (found: Option<Component>)
        ensures
            match found {
                Some(component) => find_component(self.components(), name@) == Some(component@),
                None => find_component(self.components(), name@) is None,
            },
    {
        let ghost names = component_names(self.components());
        let mut i: usize = 0;
        while i < self.components.len()
            invariant
                i <= self.components.len(),
                names == component_names(self.components.deep_view()),
                forall|j: int| 0 <= j < i ==> #[trigger] names[j] != name@,
            decreases self.components.len() - i,
        {
            if self.components[i].name == name {
                proof {
                    assert(names[i as int] == self.components[i as int]@.name);
                    lemma_is_first(names, name@, i as int);
                }
                return Some(self.components[i].clone());
            }
            assert(names[i as int] == self.components[i as int]@.name);
            i = i + 1;
        }
        proof {
            lemma_absent(names, name@);
        }
        None
    }

    /// The registered components whose name the wildcard pattern `search`
    /// matches, in the order of their registration.
    pub fn find(&self, search: String) -> (found: Vec<Component>)
        ensures
            found.deep_view() == components_matching(self.components(), search@),
    {
        let ghost keep = |component: ComponentView| wildcard_matches(search@, component.name);
        let mut found: Vec<Component> = Vec::new();
        let mut i: usize = 0;
        proof {
            lemma_filter_empty(keep);
            assert(self.components.deep_view().take(0) =~= Seq::<ComponentView>::empty());
            assert(found.deep_view() =~= Seq::<ComponentView>::empty());
        }
        while i < self.components.len()
            invariant
                i <= self.components.len(),
                keep == |component: ComponentView| wildcard_matches(search@, component.name),
                found.deep_view() == self.components.deep_view().take(i as int).filter(keep),
            decreases self.components.len() - i,
        {
            proof {
                lemma_filter_take(self.components.deep_view(), keep, i as int);
            }
            let ghost before = found.deep_view();
            if matches_wildcard(search.as_str(), self.components[i].name.as_str()) {
                found.push(self.components[i].clone());
                assert(found.deep_view() == before.push(self.components[i as int]@));
            }
            i = i + 1;
        }
        assert(self.components.deep_view().take(i as int) == self.components.deep_view());
        found
    }

    /// The property list of a type that declares `declared` and refers to
    /// the components called `referenced`: the declared properties, then
    /// those of each referenced component that is registered here.
    pub fn compose(&self, declared: &Vec<PropertyType>, referenced: &Vec<String>) -> (composed: Vec<
        PropertyType,
    >)
        ensures
            composed.deep_view() == composed_properties(
                declared.deep_view(),
                referenced.deep_view(),
                self.components(),
            ),
    {
        let mut composed = clone_properties(declared);
        let ghost names = referenced.deep_view();
        let mut i: usize = 0;
        assert(names.take(0) =~= Seq::<Seq<char>>::empty());
        while i < referenced.len()
            invariant
                i <= referenced.len(),
                names == referenced.deep_view(),
                composed.deep_view() == composed_properties(
                    declared.deep_view(),
                    names.take(i as int),
                    self.components(),
                ),
            decreases referenced.len() - i,
        {
            let ghost before = composed.deep_view();
            proof {
                assert(names.take(i as int + 1).drop_last() == names.take(i as int));
                assert(names.take(i as int + 1).last() == referenced[i as int]@);
            }
            match self.get(referenced[i].clone()) {
                Some(component) => {
                    let mut inherited = component.properties;
                    let ghost added = inherited.deep_view();
                    composed.append(&mut inherited);
                    assert(composed.deep_view() =~= before + added);
                },
                None => {},
            }
            i = i + 1;
        }
        assert(names.take(i as int) == names);
        composed
    }

    /// Builds a component of the given parts and registers it.
    pub fn create(&mut self, name: String, properties: Vec<PropertyType>, extensions: Vec<Extension>)
        ensures
            final(self).components() == old(self).components().push(
                ComponentView {
                    name: name@,
                    description: Seq::<char>::empty(),
                    properties: properties.deep_view(),
                    extensions: extensions.deep_view(),
                },
            ),
            final(self).emitted() == old(self).emitted().push(
                SystemEventView::ComponentCreated(name@),
            ),
    {
        let component = Component { name, description: String::new(), properties, extensions };
        let _ = self.register(component);
    }

    /// Removes every component called `name`, and tells of the deletion
    /// whether or not there was one.
    pub fn delete(&mut self, name: String)
        ensures
            final(self).components() == components_without(old(self).components(), name@),
            final(self).emitted() == old(self).emitted().push(
                SystemEventView::ComponentDeleted(name@),
            ),
    {
        let ghost keep = |component: ComponentView| component.name != name@;
        let mut kept: Vec<Component> = Vec::new();
        let mut i: usize = 0;
        proof {
            lemma_filter_empty(keep);
            assert(self.components.deep_view().take(0) =~= Seq::<ComponentView>::empty());
            assert(kept.deep_view() =~= Seq::<ComponentView>::empty());
        }
        while i < self.components.len()
            invariant
                i <= self.components.len(),
                keep == |component: ComponentView| component.name != name@,
                kept.deep_view() == self.components.deep_view().take(i as int).filter(keep),
            decreases self.components.len() - i,
        {
            proof {
                lemma_filter_take(self.components.deep_view(), keep, i as int);
            }
            let ghost before = kept.deep_view();
            if !(self.components[i].name == name) {
                kept.push(self.components[i].clone());
                assert(kept.deep_view() == before.push(self.components[i as int]@));
            }
            i = i + 1;
        }
        assert(self.components.deep_view().take(i as int) == self.components.deep_view());
        self.components = kept;
        self.event_manager.emit_event(SystemEvent::ComponentDeleted(name));
    }

    /// Registers a component that was read from a file, and hands back what
    /// was stored. `decoded` is `None` where the file could not be read or
    /// did not hold a component; the import fails then, and nothing is
    /// stored or told.
    pub fn import(&mut self, decoded: Option<Component>) -> (imported: Result<
        Component,
        ComponentImportError,
    >)
        ensures
            imported is Ok <==> decoded is Some,
            match imported {
                Ok(component) => {
                    &&& component@ == decoded->0@
                    &&& final(self).components() == old(self).components().push(component@)
                    &&& final(self).emitted() == old(self).emitted().push(
                        SystemEventView::ComponentCreated(component@.name),
                    )
                },
                Err(_) => {
                    &&& final(self).components() == old(self).components()
                    &&& final(self).emitted() == old(self).emitted()
                },
            },
    {
        match decoded {
            Some(component) => Ok(self.register(component)),
            None => Err(ComponentImportError),
        }
    }

    /// The component to write where the component called `name` is
    /// exported: the first registered component of that name. Nothing is
    /// written where there is none.
    pub fn export(&self, name: String) -> (exported: Option<Component>)
        ensures
            match exported {
                Some(component) => find_component(self.components(), name@) == Some(component@),
                None => find_component(self.components(), name@) is None,
            },
    {
        self.get(name)
    }

    /// Registers every component of `components`, one after the other.
    pub fn register_all(&mut self, components: Vec<Component>)
        ensures
            final(self).components() == components_with_all(
                old(self).components(),
                components.deep_view(),
            ),
            final(self).emitted() == old(self).emitted() + component_creations(
                components.deep_view(),
            ),
    {
        let mut i: usize = 0;
        assert(components.deep_view().take(0) =~= Seq::<ComponentView>::empty());
        assert(self.components() =~= old(self).components() + components.deep_view().take(0));
        assert(self.emitted() =~= old(self).emitted() + component_creations(
            components.deep_view().take(0),
        ));
        while i < components.len()
            invariant
                i <= components.len(),
                self.components() == old(self).components() + components.deep_view().take(
                    i as int,
                ),
                self.emitted() == old(self).emitted() + component_creations(
                    components.deep_view().take(i as int),
                ),
            decreases components.len() - i,
        {
            let ghost registered = self.components();
            let ghost told = self.emitted();
            let _ = self.register(components[i].clone());
            proof {
                let all = components.deep_view();
                assert(all.take(i as int + 1) =~= all.take(i as int).push(all[i as int]));
                assert(self.components() =~= old(self).components() + all.take(i as int + 1));
                assert(component_creations(all.take(i as int + 1)) =~= component_creations(
                    all.take(i as int),
                ).push(SystemEventView::ComponentCreated(all[i as int].name)));
                assert(self.emitted() =~= old(self).emitted() + component_creations(
                    all.take(i as int + 1),
                ));
            }
            i = i + 1;
        }
        assert(components.deep_view().take(i as int) == components.deep_view());
    }

    /// Asks `provider` once for its components and registers each of them,
    /// one after the other.
    pub fn add_provider<P: ComponentProvider>(&mut self, provider: &P)
        ensures
            components_supplied(
                old(self).components(),
                old(self).emitted(),
                final(self).components(),
                final(self).emitted(),
                *provider,
            ),
            old(self).components().is_prefix_of(final(self).components()),
            old(self).emitted().is_prefix_of(final(self).emitted()),
    {
        let supplied = provider.get_components();
        let ghost offered = supplied;
        self.register_all(supplied);
        assert(call_ensures(P::get_components, (provider,), offered));
    }

    /// Hands out the events that the registry has emitted, oldest first.
    pub fn take_events(&mut self) -> (taken: Vec<SystemEvent>)
        ensures
            taken.deep_view() == old(self).emitted(),
            final(self).emitted() == Seq::<SystemEventView>::empty(),
            final(self).components() == old(self).components(),
    {
        self.event_manager.take_events()
    }

    /// Forgets every component.
    pub fn shutdown(&mut self)
        ensures
            final(self).components() == Seq::<ComponentView>::empty(),
            final(self).emitted() == old(self).emitted(),
    {
        self.components.clear();
        assert(self.components.deep_view() =~= Seq::<ComponentView>::empty());
    }
}

} // verus!
