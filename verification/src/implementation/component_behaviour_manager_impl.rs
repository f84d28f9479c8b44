//! The manager of the behaviours that go with components.

use vstd::prelude::*;

use crate::model::instance::{ReactiveEntityInstance, ReactiveRelationInstance};
use crate::plugins::behaviour_provider::ComponentBehaviourProvider;

verus! {

/// Hands every request for component behaviours to every registered
/// provider, in the order of their registration.
pub struct ComponentBehaviourManagerImpl<P: ComponentBehaviourProvider> {
    behaviour_providers: Vec<P>,
}

impl<P: ComponentBehaviourProvider> ComponentBehaviourManagerImpl<P> {
    /// The registered providers, in the order of their registration.
    pub closed spec fn providers(&self) -> Seq<P> {
        self.behaviour_providers@
    }

    /// A manager without providers.
    pub fn new() -> (made: Self)
        ensures
            made.providers() == Seq::<P>::empty(),
    {
        ComponentBehaviourManagerImpl { behaviour_providers: Vec::new() }
    }

    /// The number of registered providers.
    pub fn provider_count(&self) -> (count: usize)
        ensures
            count == self.providers().len(),
    {
        self.behaviour_providers.len()
    }

    /// Asks every provider to attach its behaviours to `entity_instance`.
    pub fn add_behaviours_to_entity(&self, entity_instance: &ReactiveEntityInstance)
        ensures
            forall|k: int|
                0 <= k < self.providers().len() ==> call_ensures(
                    P::add_behaviours_to_entity,
                    (&#[trigger] self.providers()[k], entity_instance),
                    (),
                ),
    {
        let mut i: usize = 0;
        while i < self.behaviour_providers.len()
            invariant
                i <= self.behaviour_providers.len(),
                forall|k: int|
                    0 <= k < i ==> call_ensures(
                        P::add_behaviours_to_entity,
                        (&#[trigger] self.providers()[k], entity_instance),
                        (),
                    ),
            decreases self.behaviour_providers.len() - i,
        {
            self.behaviour_providers[i].add_behaviours_to_entity(entity_instance);
            i = i + 1;
        }
    }

    /// Asks every provider to attach its behaviours to `relation_instance`.
    pub fn add_behaviours_to_relation(&self, relation_instance: &ReactiveRelationInstance)
        ensures
            forall|k: int|
                0 <= k < self.providers().len() ==> call_ensures(
                    P::add_behaviours_to_relation,
                    (&#[trigger] self.providers()[k], relation_instance),
                    (),
                ),
    {
        let mut i: usize = 0;
        while i < self.behaviour_providers.len()
            invariant
                i <= self.behaviour_providers.len(),
                forall|k: int|
                    0 <= k < i ==> call_ensures(
                        P::add_behaviours_to_relation,
                        (&#[trigger] self.providers()[k], relation_instance),
                        (),
                    ),
            decreases self.behaviour_providers.len() - i,
        {
            self.behaviour_providers[i].add_behaviours_to_relation(relation_instance);
            i = i + 1;
        }
    }

    /// Asks every provider to detach its behaviours from `entity_instance`.
    pub fn remove_behaviours_from_entity(&self, entity_instance: &ReactiveEntityInstance)
        ensures
            forall|k: int|
                0 <= k < self.providers().len() ==> call_ensures(
                    P::remove_behaviours_from_entity,
                    (&#[trigger] self.providers()[k], entity_instance),
                    (),
                ),
    {
        let mut i: usize = 0;
        while i < self.behaviour_providers.len()
            invariant
                i <= self.behaviour_providers.len(),
                forall|k: int|
                    0 <= k < i ==> call_ensures(
                        P::remove_behaviours_from_entity,
                        (&#[trigger] self.providers()[k], entity_instance),
                        (),
                    ),
            decreases self.behaviour_providers.len() - i,
        {
            self.behaviour_providers[i].remove_behaviours_from_entity(entity_instance);
            i = i + 1;
        }
    }

    /// Asks every provider to detach its behaviours from
    /// `relation_instance`.
    pub fn remove_behaviours_from_relation(&self, relation_instance: &ReactiveRelationInstance)
        ensures
            forall|k: int|
                0 <= k < self.providers().len() ==> call_ensures(
                    P::remove_behaviours_from_relation,
                    (&#[trigger] self.providers()[k], relation_instance),
                    (),
                ),
    {
        let mut i: usize = 0;
        while i < self.behaviour_providers.len()
            invariant
                i <= self.behaviour_providers.len(),
                forall|k: int|
                    0 <= k < i ==> call_ensures(
                        P::remove_behaviours_from_relation,
                        (&#[trigger] self.providers()[k], relation_instance),
                        (),
                    ),
            decreases self.behaviour_providers.len() - i,
        {
            self.behaviour_providers[i].remove_behaviours_from_relation(relation_instance);
            i = i + 1;
        }
    }

    /// Registers `provider` behind the providers that are there.
    pub fn add_provider(&mut self, provider: P)
        ensures
            final(self).providers() == old(self).providers().push(provider),
    {
        self.behaviour_providers.push(provider);
    }
}

} // verus!
