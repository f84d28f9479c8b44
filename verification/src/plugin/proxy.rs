//! A plugin together with the library that holds its code.

use std::sync::Arc;
use vstd::prelude::*;

use crate::plugins::plugin::{Plugin, PluginError, PluginMetadata};
use crate::plugins::plugin_context::PluginContext;

verus! {

/// A library that was mapped into the process: `libloading::Library`.
/// Dropping the last handle unmaps the code.
#[verifier::external_type_specification]
#[verifier::external_body]
pub struct ExLibrary(libloading::Library);

/// Another handle to what `handle` points to.
///
/// Trusted: this is `Arc::clone`, which makes a pointer to the same
/// allocation and counts it.
#[verifier::external_body]
pub(crate) fn share<T>(handle: &Arc<T>) -> (shared: Arc<T>)
    ensures
        shared == *handle,
{
    Arc::clone(handle)
}

/// A plugin that cannot outlive the library it came from: the proxy holds a
/// handle to the library beside the plugin, and lets go of the plugin
/// first.
pub struct PluginProxy<P: Plugin> {
    pub(crate) plugin: P,
    pub(crate) lib: Arc<libloading::Library>,
}

impl<P: Plugin> PluginProxy<P> {
    /// The plugin behind the proxy.
    pub closed spec fn wrapped(&self) -> P {
        self.plugin
    }

    /// The library that the proxy keeps mapped.
    pub closed spec fn library(&self) -> Arc<libloading::Library> {
        self.lib
    }

    /// A proxy for `plugin`, whose code lies in `lib`.
    pub fn new(plugin: P, lib: Arc<libloading::Library>) -> (proxy: Self)
        ensures
            proxy.wrapped() == plugin,
            proxy.library() == lib,
    {
        PluginProxy { plugin, lib }
    }
}

/// Every question to the proxy is answered by the plugin behind it. The
/// context goes to the plugin as it is, and comes back as the plugin leaves
/// it.
impl<P: Plugin> Plugin for PluginProxy<P> {
    type Components = P::Components;

    type EntityTypes = P::EntityTypes;

    type RelationTypes = P::RelationTypes;

    type ComponentBehaviours = P::ComponentBehaviours;

    type EntityBehaviours = P::EntityBehaviours;

    type RelationBehaviours = P::RelationBehaviours;

    type Flows = P::Flows;

    type WebResources = P::WebResources;

    fn metadata(&self) -> (answer: Result<PluginMetadata, PluginError>)
        ensures
            call_ensures(P::metadata, (&self.wrapped(),), answer),
    {
        self.plugin.metadata()
    }

    fn init(&self) -> (answer: Result<(), PluginError>)
        ensures
            call_ensures(P::init, (&self.wrapped(),), answer),
    {
        self.plugin.init()
    }

    fn post_init(&self) -> (answer: Result<(), PluginError>)
        ensures
            call_ensures(P::post_init, (&self.wrapped(),), answer),
    {
        self.plugin.post_init()
    }

    fn pre_shutdown(&self) -> (answer: Result<(), PluginError>)
        ensures
            call_ensures(P::pre_shutdown, (&self.wrapped(),), answer),
    {
        self.plugin.pre_shutdown()
    }

    fn shutdown(&self) -> (answer: Result<(), PluginError>)
        ensures
            call_ensures(P::shutdown, (&self.wrapped(),), answer),
    {
        self.plugin.shutdown()
    }

    fn set_context(&self, context: &mut PluginContext) -> (answer: Result<(), PluginError>)
        ensures
            exists|handed: &mut PluginContext|
                {
                    &&& #[trigger] call_ensures(P::set_context, (&self.wrapped(), handed), answer)
                    &&& mut_ref_current(handed) == *old(context)
                    &&& mut_ref_future(handed) == *final(context)
                },
    {
        let ghost before = *context;
        let answer = self.plugin.set_context(context);
        proof {
            assert(before == *old(context));
            assert(self.plugin == self.wrapped());
            assert(exists|handed: &mut PluginContext|
                {
                    &&& #[trigger] call_ensures(P::set_context, (&self.wrapped(), handed), answer)
                    &&& mut_ref_current(handed) == before
                    &&& mut_ref_future(handed) == *context
                });
        }
        answer
    }

    fn get_component_provider(&self) -> (answer: Result<P::Components, PluginError>)
        ensures
            call_ensures(P::get_component_provider, (&self.wrapped(),), answer),
    {
        self.plugin.get_component_provider()
    }

    fn get_entity_type_provider(&self) -> (answer: Result<P::EntityTypes, PluginError>)
        ensures
            call_ensures(P::get_entity_type_provider, (&self.wrapped(),), answer),
    {
        self.plugin.get_entity_type_provider()
    }

    fn get_relation_type_provider(&self) -> (answer: Result<P::RelationTypes, PluginError>)
        ensures
            call_ensures(P::get_relation_type_provider, (&self.wrapped(),), answer),
    {
        self.plugin.get_relation_type_provider()
    }

    fn get_component_behaviour_provider(&self) -> (answer: Result<
        P::ComponentBehaviours,
        PluginError,
    >)
        ensures
            call_ensures(P::get_component_behaviour_provider, (&self.wrapped(),), answer),
    {
        self.plugin.get_component_behaviour_provider()
    }

    fn get_entity_behaviour_provider(&self) -> (answer: Result<P::EntityBehaviours, PluginError>)
        ensures
            call_ensures(P::get_entity_behaviour_provider, (&self.wrapped(),), answer),
    {
        self.plugin.get_entity_behaviour_provider()
    }

    fn get_relation_behaviour_provider(&self) -> (answer: Result<
        P::RelationBehaviours,
        PluginError,
    >)
        ensures
            call_ensures(P::get_relation_behaviour_provider, (&self.wrapped(),), answer),
    {
        self.plugin.get_relation_behaviour_provider()
    }

    fn get_flow_provider(&self) -> (answer: Result<P::Flows, PluginError>)
        ensures
            call_ensures(P::get_flow_provider, (&self.wrapped(),), answer),
    {
        self.plugin.get_flow_provider()
    }

    fn get_web_resource_provider(&self) -> (answer: Result<P::WebResources, PluginError>)
        ensures
            call_ensures(P::get_web_resource_provider, (&self.wrapped(),), answer),
    {
        self.plugin.get_web_resource_provider()
    }
}

} // verus!
