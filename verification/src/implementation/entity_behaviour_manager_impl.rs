//! The manager of the behaviours of entities.

use vstd::prelude::*;

use crate::model::instance::ReactiveEntityInstance;
use crate::plugins::behaviour_provider::EntityBehaviourProvider;

verus! {

/// Hands every request for entity behaviours to every registered provider,
/// in the order of their registration. Whether a behaviour applies to an
/// instance is for the provider to decide.
pub struct EntityBehaviourManagerImpl<P: EntityBehaviourProvider> {
    behaviour_providers: Vec<P>,
}

impl<P: EntityBehaviourProvider> EntityBehaviourManagerImpl<P> {
    /// The registered providers, in the order of their registration.
    pub closed spec fn providers(&self) -> Seq<P> {
        self.behaviour_providers@
    }

    /// A manager without providers.
    pub fn new() -> (made: Self)
        ensures
            made.providers() == Seq::<P>::empty(),
    {
        EntityBehaviourManagerImpl { behaviour_providers: Vec::new() }
    }

    /// The number of registered providers.
    pub fn provider_count(&self) -> (count: usize)
        ensures
            count == self.providers().len(),
    {
        self.behaviour_providers.len()
    }

    /// Asks every provider to attach its behaviours to `entity_instance`.
    pub fn add_behaviours(&self, entity_instance: &ReactiveEntityInstance)
        ensures
            forall|k: int|
                0 <= k < self.providers().len() ==> call_ensures(
                    P::add_behaviours,
                    (&#[trigger] self.providers()[k], entity_instance),
                    (),
                ),
    {
        let mut i: usize = 0;
        while i < self.behaviour_providers.len()
            invariant
                i <= self.behaviour_providers.len(),
                forall|k: int|
                    0 <= k < i ==> call_ensures(
                        P::add_behaviours,
                        (&#[trigger] self.providers()[k], entity_instance),
                        (),
                    ),
            decreases self.behaviour_providers.len() - i,
        {
            self.behaviour_providers[i].add_behaviours(entity_instance);
            i = i + 1;
        }
    }

    /// Asks every provider to detach its behaviours from `entity_instance`.
    pub fn remove_behaviours(&self, entity_instance: &ReactiveEntityInstance)
        ensures
            forall|k: int|
                0 <= k < self.providers().len() ==> call_ensures(
                    P::remove_behaviours,
                    (&#[trigger] self.providers()[k], entity_instance),
                    (),
                ),
    {
        let mut i: usize = 0;
        while i < self.behaviour_providers.len()
            invariant
                i <= self.behaviour_providers.len(),
                forall|k: int|
                    0 <= k < i ==> call_ensures(
                        P::remove_behaviours,
                        (&#[trigger] self.providers()[k], entity_instance),
                        (),
                    ),
            decreases self.behaviour_providers.len() - i,
        {
            self.behaviour_providers[i].remove_behaviours(entity_instance);
            i = i + 1;
        }
    }

    /// Asks every provider to detach its behaviours from the entity with
    /// the identity `id`. This serves where the instance itself is gone.
    pub fn remove_behaviours_by_id(&self, id: uuid::Uuid)
        ensures
            forall|k: int|
                0 <= k < self.providers().len() ==> call_ensures(
                    P::remove_behaviours_by_id,
                    (&#[trigger] self.providers()[k], id),
                    (),
                ),
    {
        let mut i: usize = 0;
        while i < self.behaviour_providers.len()
            invariant
                i <= self.behaviour_providers.len(),
                forall|k: int|
                    0 <= k < i ==> call_ensures(
                        P::remove_behaviours_by_id,
                        (&#[trigger] self.providers()[k], id),
                        (),
                    ),
            decreases self.behaviour_providers.len() - i,
        {
            self.behaviour_providers[i].remove_behaviours_by_id(id);
            i = i + 1;
        }
    }

    /// Registers `provider` behind the providers that are there. Instances
    /// that were handled before are not handed to it.
    pub fn add_provider(&mut self, provider: P)
        ensures
            final(self).providers() == old(self).providers().push(provider),
    {
        self.behaviour_providers.push(provider);
    }
}

} // verus!
