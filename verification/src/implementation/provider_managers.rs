//! The managers that keep the providers of flows and of web resources.

use vstd::prelude::*;

use crate::plugins::flow_provider::FlowProvider;
use crate::plugins::web_resource_provider::WebResourceProvider;

verus! {

/// Keeps the providers of flows, in the order of their registration, for
/// the engine that builds the flows.
pub struct ReactiveFlowManagerImpl<P: FlowProvider> {
    flow_providers: Vec<P>,
}

impl<P: FlowProvider> ReactiveFlowManagerImpl<P> {
    /// The registered providers, in the order of their registration.
    pub closed spec fn providers(&self) -> Seq<P> {
        self.flow_providers@
    }

    /// A manager without providers.
    pub fn new() -> (made: Self)
        ensures
            made.providers() == Seq::<P>::empty(),
    {
        ReactiveFlowManagerImpl { flow_providers: Vec::new() }
    }

    /// The number of registered providers.
    pub fn provider_count(&self) -> (count: usize)
        ensures
            count == self.providers().len(),
    {
        self.flow_providers.len()
    }

    /// The provider that was registered as number `i`.
    pub fn provider(&self, i: usize) -> (provider: &P)
        requires
            i < self.providers().len(),
        ensures
            *provider == self.providers()[i as int],
    {
        &self.flow_providers[i]
    }

    /// Registers `provider` behind the providers that are there.
    pub fn add_provider(&mut self, provider: P)
        ensures
            final(self).providers() == old(self).providers().push(provider),
    {
        self.flow_providers.push(provider);
    }
}

/// Keeps the providers of web resources, in the order of their
/// registration, for the server that answers requests.
pub struct WebResourceManagerImpl<P: WebResourceProvider> {
    web_resource_providers: Vec<P>,
}

impl<P: WebResourceProvider> WebResourceManagerImpl<P> {
    /// The registered providers, in the order of their registration.
    pub closed spec fn providers(&self) -> Seq<P> {
        self.web_resource_providers@
    }

    /// A manager without providers.
    pub fn new() -> (made: Self)
        ensures
            made.providers() == Seq::<P>::empty(),
    {
        WebResourceManagerImpl { web_resource_providers: Vec::new() }
    }

    /// The number of registered providers.
    pub fn provider_count(&self) -> (count: usize)
        ensures
            count == self.providers().len(),
    {
        self.web_resource_providers.len()
    }

    /// The provider that was registered as number `i`.
    pub fn provider(&self, i: usize) -> (provider: &P)
        requires
            i < self.providers().len(),
        ensures
            *provider == self.providers()[i as int],
    {
        &self.web_resource_providers[i]
    }

    /// Registers `provider` behind the providers that are there.
    pub fn add_provider(&mut self, provider: P)
        ensures
            final(self).providers() == old(self).providers().push(provider),
    {
        self.web_resource_providers.push(provider);
    }
}

} // verus!
