//! The manager of the behaviours of relations.

use vstd::prelude::*;

use crate::model::instance::ReactiveRelationInstance;
use crate::plugins::behaviour_provider::RelationBehaviourProvider;

verus! {

/// The providers of relation behaviours, in the order of their
/// registration.
pub struct RelationBehaviourProviders<P>(pub Vec<P>);

/// A list without providers.
pub fn create_relation_behaviour_providers<P>() -> (providers: RelationBehaviourProviders<P>)
    ensures
        providers.0@ == Seq::<P>::empty(),
{
    RelationBehaviourProviders(Vec::new())
}

/// Hands every request for relation behaviours to every registered
/// provider, in the order of their registration. Whether a behaviour
/// applies to an instance is for the provider to decide.
pub struct RelationBehaviourManagerImpl<P: RelationBehaviourProvider> {
    behaviour_providers: RelationBehaviourProviders<P>,
}

impl<P: RelationBehaviourProvider> RelationBehaviourManagerImpl<P> {
    /// The registered providers, in the order of their registration.
    pub closed spec fn providers(&self) -> Seq<P> {
        self.behaviour_providers.0@
    }

    /// A manager without providers.
    pub fn new() -> (made: Self)
        ensures
            made.providers() == Seq::<P>::empty(),
    {
        RelationBehaviourManagerImpl { behaviour_providers: create_relation_behaviour_providers() }
    }

    /// The number of registered providers.
    pub fn provider_count(&self) -> (count: usize)
        ensures
            count == self.providers().len(),
    {
        self.behaviour_providers.0.len()
    }

    /// Asks every provider to attach its behaviours to `relation_instance`.
    pub fn add_behaviours(&self, relation_instance: &ReactiveRelationInstance)
        ensures
            forall|k: int|
                0 <= k < self.providers().len() ==> call_ensures(
                    P::add_behaviours,
                    (&#[trigger] self.providers()[k], relation_instance),
                    (),
                ),
    {
        let mut i: usize = 0;
        while i < self.behaviour_providers.0.len()
            invariant
                i <= self.behaviour_providers.0.len(),
                forall|k: int|
                    0 <= k < i ==> call_ensures(
                        P::add_behaviours,
                        (&#[trigger] self.providers()[k], relation_instance),
                        (),
                    ),
            decreases self.behaviour_providers.0.len() - i,
        {
            self.behaviour_providers.0[i].add_behaviours(relation_instance);
            i = i + 1;
        }
    }

    /// Asks every provider to detach its behaviours from
    /// `relation_instance`.
    pub fn remove_behaviours(&self, relation_instance: &ReactiveRelationInstance)
        ensures
            forall|k: int|
                0 <= k < self.providers().len() ==> call_ensures(
                    P::remove_behaviours,
                    (&#[trigger] self.providers()[k], relation_instance),
                    (),
                ),
    {
        let mut i: usize = 0;
        while i < self.behaviour_providers.0.len()
            invariant
                i <= self.behaviour_providers.0.len(),
                forall|k: int|
                    0 <= k < i ==> call_ensures(
                        P::remove_behaviours,
                        (&#[trigger] self.providers()[k], relation_instance),
                        (),
                    ),
            decreases self.behaviour_providers.0.len() - i,
        {
            self.behaviour_providers.0[i].remove_behaviours(relation_instance);
            i = i + 1;
        }
    }

    /// Asks every provider to detach its behaviours from the relation with
    /// the key `edge_key`. This serves where the instance itself is gone.
    pub fn remove_behaviours_by_key(&self, edge_key: &indradb::EdgeKey)
        ensures
            forall|k: int|
                0 <= k < self.providers().len() ==> call_ensures(
                    P::remove_behaviours_by_key,
                    (&#[trigger] self.providers()[k], edge_key),
                    (),
                ),
    {
        let mut i: usize = 0;
        while i < self.behaviour_providers.0.len()
            invariant
                i <= self.behaviour_providers.0.len(),
                forall|k: int|
                    0 <= k < i ==> call_ensures(
                        P::remove_behaviours_by_key,
                        (&#[trigger] self.providers()[k], edge_key),
                        (),
                    ),
            decreases self.behaviour_providers.0.len() - i,
        {
            self.behaviour_providers.0[i].remove_behaviours_by_key(edge_key);
            i = i + 1;
        }
    }

    /// Registers `provider` behind the providers that are there. Instances
    /// that were handled before are not handed to it.
    pub fn add_provider(&mut self, provider: P)
        ensures
            final(self).providers() == old(self).providers().push(provider),
    {
        self.behaviour_providers.0.push(provider);
    }
}

} // verus!
