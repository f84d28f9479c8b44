//! The registry of plugins.
//!
//! The registry takes libraries that were opened for it, checks what they
//! declare, keeps the plugins that they register, takes over the providers
//! of each plugin that initializes, and leads all plugins through their
//! phases.

use std::sync::Arc;
use vstd::prelude::*;

use crate::api::entity_type_manager::{entity_types_supplied, EntityTypeManager};
use crate::api::relation_type_manager::relation_types_supplied;
use crate::implementation::component_behaviour_manager_impl::ComponentBehaviourManagerImpl;
use crate::implementation::component_manager_impl::{components_supplied, ComponentManagerImpl};
use crate::implementation::entity_behaviour_manager_impl::EntityBehaviourManagerImpl;
use crate::implementation::entity_type_manager_impl::EntityTypeManagerImpl;
use crate::implementation::provider_managers::{ReactiveFlowManagerImpl, WebResourceManagerImpl};
use crate::implementation::relation_behaviour_manager_impl::RelationBehaviourManagerImpl;
use crate::implementation::relation_type_manager_impl::RelationTypeManagerImpl;
use crate::plugin::proxies::{
    find_plugin, lemma_plugins_with_all, plugin_names, plugins_with_all, PluginProxies,
};
use crate::plugin::proxy::{share, PluginProxy};
use crate::plugin::registrar::PluginRegistrar;
use crate::plugins::plugin::{Plugin, PluginError};
use crate::plugins::plugin_context::PluginContext;
use crate::plugins::plugin_declaration::{PluginDeclaration, PluginRegistration};

verus! {

/// The libraries of the loaded plugins. The registry keeps a handle to
/// each, so that none is unmapped while the registry lives.
pub struct PluginLibraries(pub Vec<Arc<libloading::Library>>);

/// A library that was mapped, with the record that it declares.
pub struct OpenedLibrary<R> {
    pub declaration: PluginDeclaration<R>,
    pub library: Arc<libloading::Library>,
}

/// The two phases that lead a plugin out of service.
#[derive(Clone, Copy, Debug, PartialEq, Eq, Structural)]
pub enum ShutdownPhase {
    PreShutdown,
    Shutdown,
}

/// How one plugin went through one phase.
#[derive(Debug, PartialEq, Eq)]
pub struct PhaseReport {
    pub plugin: String,
    pub phase: ShutdownPhase,
    pub outcome: Result<(), PluginError>,
}

/// How far the loading of a plugin went.
#[derive(Debug, PartialEq, Eq)]
pub enum PluginLoadReport {
    /// The library was refused. The registry is as it was.
    LoadFailed(PluginError),
    /// The library is loaded, but it registered no plugin under the name.
    NotRegistered,
    /// The plugin did not initialize. None of its providers was asked for.
    InitFailed(PluginError),
    /// The plugin initialized. Its providers were taken over; then it was
    /// handed its context and told that initialization is over, with the
    /// two outcomes given.
    Activated { context: Result<(), PluginError>, post_init: Result<(), PluginError> },
}

/// The registry of plugins, with the registries and managers that the
/// plugins contribute to. The plugins stand before the libraries: when the
/// registry goes, every plugin goes before the library that holds its code.
pub struct PluginRegistryImpl<P: Plugin> {
    pub component_behaviour_manager: ComponentBehaviourManagerImpl<P::ComponentBehaviours>,
    pub component_manager: ComponentManagerImpl,
    pub entity_behaviour_manager: EntityBehaviourManagerImpl<P::EntityBehaviours>,
    pub entity_type_manager: EntityTypeManagerImpl,
    pub relation_behaviour_manager: RelationBehaviourManagerImpl<P::RelationBehaviours>,
    pub relation_type_manager: RelationTypeManagerImpl,
    pub reactive_flow_manager: ReactiveFlowManagerImpl<P::Flows>,
    pub web_resource_manager: WebResourceManagerImpl<P::WebResources>,
    /// The toolchain that the host was built with.
    pub rustc_version: String,
    /// The version of the plugin interface that the host offers.
    pub inexor_rgf_plugin_version: String,
    pub plugins: PluginProxies<P>,
    pub libraries: PluginLibraries,
}

/// Whether an entry point that was handed the registrar `given` and left
/// it as `left` has brought the plugin map from `before` to `after` for
/// `library`: the registrar was one for that library without plugins, and
/// what it held in the end went into the map, one plugin after the other.
pub open spec fn registered_through<P: Plugin>(
    given: PluginRegistrar<P>,
    left: PluginRegistrar<P>,
    library: Arc<libloading::Library>,
    before: Seq<(Seq<char>, PluginProxy<P>)>,
    after: Seq<(Seq<char>, PluginProxy<P>)>,
) -> bool {
    &&& given.registered() == Seq::<(Seq<char>, PluginProxy<P>)>::empty()
    &&& given.library() == library
    &&& after == plugins_with_all(before, left.registered())
}

/// The message that says that a library was built with another toolchain.
pub open spec fn toolchain_mismatch() -> Seq<char> {
    "Version mismatch: rustc"@
}

/// The message that says that a library was built against another version
/// of the plugin interface.
pub open spec fn interface_mismatch() -> Seq<char> {
    "Version mismatch: inexor_rgf_core_plugins"@
}

impl<P: Plugin> PluginRegistryImpl<P> {
    /// Whether the registries and managers of `self` are those of `other`.
    pub open spec fn same_managers(&self, other: &Self) -> bool {
        &&& self.component_behaviour_manager == other.component_behaviour_manager
        &&& self.component_manager == other.component_manager
        &&& self.entity_behaviour_manager == other.entity_behaviour_manager
        &&& self.entity_type_manager == other.entity_type_manager
        &&& self.relation_behaviour_manager == other.relation_behaviour_manager
        &&& self.relation_type_manager == other.relation_type_manager
        &&& self.reactive_flow_manager == other.reactive_flow_manager
        &&& self.web_resource_manager == other.web_resource_manager
    }

    /// Whether `self` expects the tokens that `other` expects.
    pub open spec fn same_host(&self, other: &Self) -> bool {
        &&& self.rustc_version == other.rustc_version
        &&& self.inexor_rgf_plugin_version == other.inexor_rgf_plugin_version
    }

    /// Whether `self` holds the plugins and libraries of `other`.
    pub open spec fn same_plugins(&self, other: &Self) -> bool {
        &&& self.plugins.entries() == other.plugins.entries()
        &&& self.libraries.0@ == other.libraries.0@
    }

    /// Whether every plugin that `other` holds is held by `self` too.
    pub open spec fn keeps_plugins_of(&self, other: &Self) -> bool {
        forall|name: Seq<char>|
            #![trigger find_plugin(self.plugins.entries(), name)]
            find_plugin(other.plugins.entries(), name) is Some ==> find_plugin(
                self.plugins.entries(),
                name,
            ) is Some
    }

    /// Whether the managers of behaviours, flows and web resources of
    /// `self` are those of `before` with what `plugin` supplies of each
    /// kind: each manager has taken over one answer of the plugin.
    pub open spec fn took_providers_of(&self, before: &Self, plugin: P) -> bool {
        &&& exists|answer: Result<P::ComponentBehaviours, PluginError>|
            #[trigger] call_ensures(P::get_component_behaviour_provider, (&plugin,), answer)
                && taken_over(
                before.component_behaviour_manager.providers(),
                self.component_behaviour_manager.providers(),
                answer,
            )
        &&& exists|answer: Result<P::EntityBehaviours, PluginError>|
            #[trigger] call_ensures(P::get_entity_behaviour_provider, (&plugin,), answer)
                && taken_over(
                before.entity_behaviour_manager.providers(),
                self.entity_behaviour_manager.providers(),
                answer,
            )
        &&& exists|answer: Result<P::RelationBehaviours, PluginError>|
            #[trigger] call_ensures(P::get_relation_behaviour_provider, (&plugin,), answer)
                && taken_over(
                before.relation_behaviour_manager.providers(),
                self.relation_behaviour_manager.providers(),
                answer,
            )
        &&& exists|answer: Result<P::Flows, PluginError>|
            #[trigger] call_ensures(P::get_flow_provider, (&plugin,), answer) && taken_over(
                before.reactive_flow_manager.providers(),
                self.reactive_flow_manager.providers(),
                answer,
            )
        &&& exists|answer: Result<P::WebResources, PluginError>|
            #[trigger] call_ensures(P::get_web_resource_provider, (&plugin,), answer)
                && taken_over(
                before.web_resource_manager.providers(),
                self.web_resource_manager.providers(),
                answer,
            )
    }

    /// Whether the three type registries that the context `given` holds
    /// are those of `before` with what `plugin` supplies: the component
    /// registry has taken over one answer of the plugin, then the entity
    /// type registry one, composing of those components, then the relation
    /// type registry one, checking against those entity types and
    /// components. A registry whose kind the plugin does not supply is as
    /// it was.
    pub open spec fn took_types_of(before: &Self, given: PluginContext, plugin: P) -> bool {
        let components = given.component_manager.inner();
        let entity_types = given.entity_type_manager.inner();
        let relation_types = given.relation_type_manager.inner();
        &&& exists|answer: Result<P::Components, PluginError>|
            #[trigger] call_ensures(P::get_component_provider, (&plugin,), answer) && match answer {
                Ok(provider) => components_supplied(
                    before.component_manager.components(),
                    before.component_manager.emitted(),
                    components.components(),
                    components.emitted(),
                    provider,
                ),
                Err(_) => components == before.component_manager,
            }
        &&& exists|answer: Result<P::EntityTypes, PluginError>|
            #[trigger] call_ensures(P::get_entity_type_provider, (&plugin,), answer) && match answer {
                Ok(provider) => entity_types_supplied(
                    before.entity_type_manager.entity_types(),
                    before.entity_type_manager.emitted(),
                    entity_types.entity_types(),
                    entity_types.emitted(),
                    components.components(),
                    provider,
                ),
                Err(_) => entity_types == before.entity_type_manager,
            }
        &&& exists|answer: Result<P::RelationTypes, PluginError>|
            #[trigger] call_ensures(P::get_relation_type_provider, (&plugin,), answer) && match answer {
                Ok(provider) => relation_types_supplied(
                    before.relation_type_manager.relation_types(),
                    before.relation_type_manager.emitted(),
                    relation_types.relation_types(),
                    relation_types.emitted(),
                    entity_types.entity_types(),
                    components.components(),
                    provider,
                ),
                Err(_) => relation_types == before.relation_type_manager,
            }
    }

    /// Whether the three type registries of `self` are those that the
    /// context `left` holds.
    pub open spec fn holds_types_of(&self, left: PluginContext) -> bool {
        &&& self.component_manager == left.component_manager.inner()
        &&& self.entity_type_manager == left.entity_type_manager.inner()
        &&& self.relation_type_manager == left.relation_type_manager.inner()
    }

    /// Whether the host that `self` stands for refuses `opened` with
    /// `error`: a library that could not be opened with the error of
    /// creation, one of another toolchain with the message that says so, and
    /// one of the host's toolchain but of another version of the plugin
    /// interface with the message that says that.
    pub open spec fn refuses<R>(&self, opened: Option<OpenedLibrary<R>>, error: PluginError) -> bool {
        match opened {
            None => error matches PluginError::PluginCreationError,
            Some(library) => if library.declaration.rustc_version@ != self.rustc_version@ {
                error matches PluginError::Other { message } && message@ == toolchain_mismatch()
            } else {
                &&& library.declaration.inexor_rgf_plugin_version@
                    != self.inexor_rgf_plugin_version@
                &&& error matches PluginError::Other { message } && message@
                    == interface_mismatch()
            },
        }
    }

    /// Whether the host that `self` stands for takes `opened`: there is a
    /// library, and both its tokens are exactly the host's own.
    pub open spec fn takes<R>(&self, opened: Option<OpenedLibrary<R>>) -> bool {
        opened is Some && self.admits(
            opened->0.declaration.rustc_version@,
            opened->0.declaration.inexor_rgf_plugin_version@,
        )
    }

    /// Whether the host that `self` stands for admits a library that
    /// declares the two tokens: both are exactly the host's own.
    pub open spec fn admits(&self, rustc_version: Seq<char>, plugin_version: Seq<char>) -> bool {
        rustc_version == self.rustc_version@ && plugin_version == self.inexor_rgf_plugin_version@
    }

    /// A registry without plugins, over the given registries and managers,
    /// for a host with the two tokens.
    pub fn new(
        rustc_version: String,
        inexor_rgf_plugin_version: String,
        component_manager: ComponentManagerImpl,
        entity_type_manager: EntityTypeManagerImpl,
        relation_type_manager: RelationTypeManagerImpl,
    ) -> (made: Self)
        ensures
            made.rustc_version == rustc_version,
            made.inexor_rgf_plugin_version == inexor_rgf_plugin_version,
            made.component_manager == component_manager,
            made.entity_type_manager == entity_type_manager,
            made.relation_type_manager == relation_type_manager,
            made.plugins.entries() == Seq::<(Seq<char>, PluginProxy<P>)>::empty(),
            made.libraries.0@ == Seq::<Arc<libloading::Library>>::empty(),
            made.component_behaviour_manager.providers() == Seq::<P::ComponentBehaviours>::empty(),
            made.entity_behaviour_manager.providers() == Seq::<P::EntityBehaviours>::empty(),
            made.relation_behaviour_manager.providers() == Seq::<P::RelationBehaviours>::empty(),
            made.reactive_flow_manager.providers() == Seq::<P::Flows>::empty(),
            made.web_resource_manager.providers() == Seq::<P::WebResources>::empty(),
    {
        PluginRegistryImpl {
            component_behaviour_manager: ComponentBehaviourManagerImpl::new(),
            component_manager,
            entity_behaviour_manager: EntityBehaviourManagerImpl::new(),
            entity_type_manager,
            relation_behaviour_manager: RelationBehaviourManagerImpl::new(),
            relation_type_manager,
            reactive_flow_manager: ReactiveFlowManagerImpl::new(),
            web_resource_manager: WebResourceManagerImpl::new(),
            rustc_version,
            inexor_rgf_plugin_version,
            plugins: PluginProxies::new(),
            libraries: PluginLibraries(Vec::new()),
        }
    }

    /// Whether a plugin called `name` is loaded.
    pub fn has(&self, name: String) -> (known: bool)
        ensures
            known == find_plugin(self.plugins.entries(), name@) is Some,
            known == plugin_names(self.plugins.entries()).contains(name@),
    {
        self.plugins.has(&name)
    }

    /// The loaded plugin called `name`.
    pub fn get(&self, name: String) -> (found: Option<&PluginProxy<P>>)
        ensures
            match found {
                Some(proxy) => find_plugin(self.plugins.entries(), name@) == Some(*proxy),
                None => find_plugin(self.plugins.entries(), name@) is None,
            },
    {
        self.plugins.get(&name)
    }

    /// Checks the record that a library declares against the host: the
    /// toolchain first, then the version of the plugin interface. Each has
    /// to be exactly the host's own.
    pub fn check_declaration<R>(&self, declaration: &PluginDeclaration<R>) -> (checked: Result<
        (),
        PluginError,
    >)
        ensures
            checked is Ok <==> self.admits(
                declaration.rustc_version@,
                declaration.inexor_rgf_plugin_version@,
            ),
            declaration.rustc_version@ != self.rustc_version@ ==> (checked matches Err(
                PluginError::Other { message },
            ) && message@ == toolchain_mismatch()),
            declaration.rustc_version@ == self.rustc_version@
                && declaration.inexor_rgf_plugin_version@ != self.inexor_rgf_plugin_version@ ==> (
            checked matches Err(PluginError::Other { message }) && message@
                == interface_mismatch()),
    {
        if !(declaration.rustc_version == self.rustc_version) {
            return Err(PluginError::Other { message: "Version mismatch: rustc".to_owned() });
        }
        if !(declaration.inexor_rgf_plugin_version == self.inexor_rgf_plugin_version) {
            return Err(
                PluginError::Other {
                    message: "Version mismatch: inexor_rgf_core_plugins".to_owned(),
                },
            );
        }
        Ok(())
    }

    /// Takes over what a library has registered: its plugins go into the
    /// plugin map, one after the other, and the library is kept.
    pub fn retain(&mut self, registrar: PluginRegistrar<P>, library: Arc<libloading::Library>)
        ensures
            final(self).plugins.entries() == plugins_with_all(
                old(self).plugins.entries(),
                registrar.registered(),
            ),
            final(self).libraries.0@ == old(self).libraries.0@.push(library),
            final(self).keeps_plugins_of(old(self)),
            final(self).same_managers(old(self)),
            final(self).same_host(old(self)),
    {
        let _ = self.plugins.len();
        proof {
            lemma_plugins_with_all(self.plugins.entries(), registrar.registered());
        }
        self.plugins.extend(registrar.into_plugins());
        self.libraries.0.push(library);
    }

    /// Loads a library that was opened. `opened` is `None` where the
    /// library could not be mapped or declares nothing.
    ///
    /// The library is refused where there is none, and where one of its
    /// tokens is not the host's own; the registry is then as it was, and
    /// the library is let go. Otherwise the entry point of the library is
    /// called with a fresh registrar, the plugins that it registers go
    /// into the plugin map, and the library is kept.
    pub fn load<R: PluginRegistration<P>>(&mut self, opened: Option<OpenedLibrary<R>>) -> (loaded:
        Result<(), PluginError>)
        ensures
            final(self).same_managers(old(self)),
            final(self).same_host(old(self)),
            final(self).keeps_plugins_of(old(self)),
            loaded is Ok <==> old(self).takes(opened),
            match loaded {
                Err(error) => old(self).refuses(opened, error) && final(self).same_plugins(
                    old(self),
                ),
                Ok(_) => {
                    &&& final(self).libraries.0@ == old(self).libraries.0@.push(
                        opened->0.library,
                    )
                    &&& exists|handed: &mut PluginRegistrar<P>|
                        {
                            &&& #[trigger] call_ensures(
                                R::register,
                                (&opened->0.declaration.register, handed),
                                (),
                            )
                            &&& registered_through(
                                mut_ref_current(handed),
                                mut_ref_future(handed),
                                opened->0.library,
                                old(self).plugins.entries(),
                                final(self).plugins.entries(),
                            )
                        }
                },
            },
    {
        match opened {
            None => Err(PluginError::PluginCreationError),
            Some(library) => {
                match self.check_declaration(&library.declaration) {
                    Err(error) => Err(error),
                    Ok(_) => {
                        let mut registrar = PluginRegistrar::new(share(&library.library));
                        let ghost fresh = registrar;
                        library.declaration.register.register(&mut registrar);
                        proof {
                            assert(exists|handed: &mut PluginRegistrar<P>|
                                {
                                    &&& #[trigger] call_ensures(
                                        R::register,
                                        (&library.declaration.register, handed),
                                        (),
                                    )
                                    &&& mut_ref_current(handed) == fresh
                                    &&& mut_ref_future(handed) == registrar
                                });
                        }
                        self.retain(registrar, library.library);
                        Ok(())
                    },
                }
            },
        }
    }

    /// Loads the plugin called `name` from a library that was opened, and
    /// brings it into service.
    ///
    /// The library is loaded first. Where it is refused, nothing else is
    /// done. Then the plugin that the library registered under `name` is
    /// initialized; where there is none, or where it fails, none of its
    /// providers is asked for. Then each provider that the plugin supplies
    /// goes to the registry or manager of its kind: components, entity
    /// types, relation types, then the behaviours of components, entities
    /// and relations, then flows and web resources. At last the plugin is
    /// handed a fresh context over the type registries and is told that
    /// initialization is over.
    pub fn load_plugin<R: PluginRegistration<P>>(
        &mut self,
        name: String,
        opened: Option<OpenedLibrary<R>>,
    ) -> (report: PluginLoadReport)
        ensures
            final(self).same_host(old(self)),
            final(self).keeps_plugins_of(old(self)),
            report is LoadFailed <==> !old(self).takes(opened),
            report matches PluginLoadReport::LoadFailed(error) ==> {
                &&& old(self).refuses(opened, error)
                &&& final(self).same_plugins(old(self))
                &&& final(self).same_managers(old(self))
            },
            !(report is LoadFailed) ==> exists|handed: &mut PluginRegistrar<P>|
                {
                    &&& #[trigger] call_ensures(
                        R::register,
                        (&opened->0.declaration.register, handed),
                        (),
                    )
                    &&& registered_through(
                        mut_ref_current(handed),
                        mut_ref_future(handed),
                        opened->0.library,
                        old(self).plugins.entries(),
                        final(self).plugins.entries(),
                    )
                },
            !(report is LoadFailed) ==> final(self).libraries.0@ == old(self).libraries.0@.push(
                opened->0.library,
            ),
            report is NotRegistered <==> !(report is LoadFailed) && find_plugin(
                final(self).plugins.entries(),
                name@,
            ) is None,
            report is NotRegistered || report is InitFailed ==> final(self).same_managers(
                old(self),
            ),
            report matches PluginLoadReport::InitFailed(error) ==> find_plugin(
                final(self).plugins.entries(),
                name@,
            ) matches Some(proxy) && call_ensures(
                P::init,
                (&proxy.wrapped(),),
                Err::<(), PluginError>(error),
            ),
            report matches PluginLoadReport::Activated { context, post_init } ==> find_plugin(
                final(self).plugins.entries(),
                name@,
            ) matches Some(proxy) && call_ensures(
                P::init,
                (&proxy.wrapped(),),
                Ok::<(), PluginError>(()),
            ) && call_ensures(P::post_init, (&proxy.wrapped(),), post_init),
            report is Activated ==> final(self).took_providers_of(
                old(self),
                find_plugin(final(self).plugins.entries(), name@)->0.wrapped(),
            ),
            report matches PluginLoadReport::Activated { context, post_init } ==> exists|
                handed: &mut PluginContext,
            |
                {
                    &&& #[trigger] call_ensures(
                        P::set_context,
                        (&find_plugin(final(self).plugins.entries(), name@)->0.wrapped(), handed),
                        context,
                    )
                    &&& Self::took_types_of(
                        old(self),
                        mut_ref_current(handed),
                        find_plugin(final(self).plugins.entries(), name@)->0.wrapped(),
                    )
                    &&& final(self).holds_types_of(mut_ref_future(handed))
                },
    {
        match self.load(opened) {
            Err(error) => {
                return PluginLoadReport::LoadFailed(error);
            },
            Ok(_) => {},
        }
        let proxy = match self.plugins.get(&name) {
            Some(proxy) => proxy,
            None => {
                return PluginLoadReport::NotRegistered;
            },
        };
        let initialized = proxy.init();
        match initialized {
            Err(error) => {
                return PluginLoadReport::InitFailed(error);
            },
            Ok(done) => {
                assert(done == ());
            },
        }
        let components = proxy.get_component_provider();
        let ghost components_answer = components;
        if let Ok(component_provider) = components {
            self.component_manager.add_provider(&component_provider);
        }
        let entity_types = proxy.get_entity_type_provider();
        let ghost entity_types_answer = entity_types;
        if let Ok(entity_type_provider) = entity_types {
            self.entity_type_manager.add_provider(&self.component_manager, &entity_type_provider);
        }
        let relation_types = proxy.get_relation_type_provider();
        let ghost relation_types_answer = relation_types;
        if let Ok(relation_type_provider) = relation_types {
            self.relation_type_manager.add_provider(
                &self.component_manager,
                &self.entity_type_manager,
                &relation_type_provider,
            );
        }
        let component_behaviours = proxy.get_component_behaviour_provider();
        let ghost component_behaviours_answer = component_behaviours;
        if let Ok(component_behaviour_provider) = component_behaviours {
            self.component_behaviour_manager.add_provider(component_behaviour_provider);
        }
        let entity_behaviours = proxy.get_entity_behaviour_provider();
        let ghost entity_behaviours_answer = entity_behaviours;
        if let Ok(entity_behaviour_provider) = entity_behaviours {
            self.entity_behaviour_manager.add_provider(entity_behaviour_provider);
        }
        let relation_behaviours = proxy.get_relation_behaviour_provider();
        let ghost relation_behaviours_answer = relation_behaviours;
        if let Ok(relation_behaviour_provider) = relation_behaviours {
            self.relation_behaviour_manager.add_provider(relation_behaviour_provider);
        }
        let flows = proxy.get_flow_provider();
        let ghost flows_answer = flows;
        if let Ok(flow_provider) = flows {
            self.reactive_flow_manager.add_provider(flow_provider);
        }
        let web_resources = proxy.get_web_resource_provider();
        let ghost web_resources_answer = web_resources;
        if let Ok(web_resource_provider) = web_resources {
            self.web_resource_manager.add_provider(web_resource_provider);
        }
        proof {
            assert(taken_over(
                old(self).component_behaviour_manager.providers(),
                self.component_behaviour_manager.providers(),
                component_behaviours_answer,
            ));
            assert(taken_over(
                old(self).entity_behaviour_manager.providers(),
                self.entity_behaviour_manager.providers(),
                entity_behaviours_answer,
            ));
            assert(taken_over(
                old(self).relation_behaviour_manager.providers(),
                self.relation_behaviour_manager.providers(),
                relation_behaviours_answer,
            ));
            assert(taken_over(
                old(self).reactive_flow_manager.providers(),
                self.reactive_flow_manager.providers(),
                flows_answer,
            ));
            assert(taken_over(
                old(self).web_resource_manager.providers(),
                self.web_resource_manager.providers(),
                web_resources_answer,
            ));
        }
        let mut component_manager = ComponentManagerImpl::new();
        let mut entity_type_manager = EntityTypeManagerImpl::new();
        let mut relation_type_manager = RelationTypeManagerImpl::new();
        core::mem::swap(&mut component_manager, &mut self.component_manager);
        core::mem::swap(&mut entity_type_manager, &mut self.entity_type_manager);
        core::mem::swap(&mut relation_type_manager, &mut self.relation_type_manager);
        let mut plugin_context = PluginContext::new(
            component_manager,
            entity_type_manager,
            relation_type_manager,
        );
        let ghost given = plugin_context;
        proof {
            assert(call_ensures(
                P::get_component_provider,
                (&proxy.wrapped(),),
                components_answer,
            ));
            assert(call_ensures(
                P::get_entity_type_provider,
                (&proxy.wrapped(),),
                entity_types_answer,
            ));
            assert(call_ensures(
                P::get_relation_type_provider,
                (&proxy.wrapped(),),
                relation_types_answer,
            ));
            assert(Self::took_types_of(old(self), given, proxy.wrapped()));
        }
        let context = proxy.set_context(&mut plugin_context);
        let ghost left = plugin_context;
        let post_init = proxy.post_init();
        let (component_manager, entity_type_manager, relation_type_manager) =
            plugin_context.into_parts();
        self.component_manager = component_manager;
        self.entity_type_manager = entity_type_manager;
        self.relation_type_manager = relation_type_manager;
        proof {
            assert(self.holds_types_of(left));
            assert(find_plugin(self.plugins.entries(), name@)->0.wrapped() == proxy.wrapped());
            assert(exists|handed: &mut PluginContext|
                {
                    &&& #[trigger] call_ensures(
                        P::set_context,
                        (&proxy.wrapped(), handed),
                        context,
                    )
                    &&& mut_ref_current(handed) == given
                    &&& mut_ref_future(handed) == left
                });
        }
        PluginLoadReport::Activated { context, post_init }
    }

    /// Leads every loaded plugin out of service: each plugin, in the order
    /// of the plugin map, is told that shutdown is near; then each, in the
    /// same order, is told to shut down. The order is that in which the
    /// names came in, not its reverse. A plugin that fails holds no other
    /// plugin up. The report tells of every call in the order of the calls.
    pub fn unload_plugins(&self) -> (report: Vec<PhaseReport>)
        ensures
            unloading_report(self.plugins.entries(), report@),
    {
        let count = self.plugins.len();
        let ghost entries = self.plugins.entries();
        let mut report: Vec<PhaseReport> = Vec::new();
        let mut i: usize = 0;
        while i < count
            invariant
                i <= count,
                count == entries.len(),
                entries == self.plugins.entries(),
                report@.len() == i,
                forall|k: int|
                    0 <= k < i ==> phase_reported(
                        entries,
                        #[trigger] report@[k],
                        k,
                        ShutdownPhase::PreShutdown,
                    ),
            decreases count - i,
        {
            let outcome = self.plugins.proxy_at(i).pre_shutdown();
            let entry = PhaseReport {
                plugin: self.plugins.name_at(i).clone(),
                phase: ShutdownPhase::PreShutdown,
                outcome,
            };
            assert(phase_reported(entries, entry, i as int, ShutdownPhase::PreShutdown));
            report.push(entry);
            i = i + 1;
        }
        let mut j: usize = 0;
        while j < count
            invariant
                j <= count,
                count == entries.len(),
                entries == self.plugins.entries(),
                report@.len() == count + j,
                forall|k: int|
                    0 <= k < count ==> phase_reported(
                        entries,
                        #[trigger] report@[k],
                        k,
                        ShutdownPhase::PreShutdown,
                    ),
                forall|k: int|
                    0 <= k < j ==> phase_reported(
                        entries,
                        #[trigger] report@[count + k],
                        k,
                        ShutdownPhase::Shutdown,
                    ),
            decreases count - j,
        {
            let outcome = self.plugins.proxy_at(j).shutdown();
            let entry = PhaseReport {
                plugin: self.plugins.name_at(j).clone(),
                phase: ShutdownPhase::Shutdown,
                outcome,
            };
            assert(phase_reported(entries, entry, j as int, ShutdownPhase::Shutdown));
            let ghost before = report@;
            report.push(entry);
            assert forall|k: int| 0 <= k < count implies phase_reported(
                entries,
                #[trigger] report@[k],
                k,
                ShutdownPhase::PreShutdown,
            ) by {
                assert(report@[k] == before[k]);
            }
            assert forall|k: int| 0 <= k < j + 1 implies phase_reported(
                entries,
                #[trigger] report@[count + k],
                k,
                ShutdownPhase::Shutdown,
            ) by {
                if k < j {
                    assert(report@[count + k] == before[count + k]);
                }
            }
            j = j + 1;
        }
        report
    }

    /// Initializes the plugin called `name` once more.
    pub fn plugin_init(&self, name: String) -> (answer: Result<(), PluginError>)
        ensures
            match find_plugin(self.plugins.entries(), name@) {
                Some(proxy) => call_ensures(P::init, (&proxy.wrapped(),), answer),
                None => answer matches Err(PluginError::InitializationError),
            },
    {
        match self.plugins.get(&name) {
            Some(proxy) => proxy.init(),
            None => Err(PluginError::InitializationError),
        }
    }

    /// Tells the plugin called `name` once more that initialization is
    /// over.
    pub fn plugin_post_init(&self, name: String) -> (answer: Result<(), PluginError>)
        ensures
            match find_plugin(self.plugins.entries(), name@) {
                Some(proxy) => call_ensures(P::post_init, (&proxy.wrapped(),), answer),
                None => answer matches Err(PluginError::PostInitializationError),
            },
    {
        match self.plugins.get(&name) {
            Some(proxy) => proxy.post_init(),
            None => Err(PluginError::PostInitializationError),
        }
    }

    /// Tells the plugin called `name` once more that shutdown is near.
    pub fn plugin_pre_shutdown(&self, name: String) -> (answer: Result<(), PluginError>)
        ensures
            match find_plugin(self.plugins.entries(), name@) {
                Some(proxy) => call_ensures(P::pre_shutdown, (&proxy.wrapped(),), answer),
                None => answer matches Err(PluginError::PreShutdownError),
            },
    {
        match self.plugins.get(&name) {
            Some(proxy) => proxy.pre_shutdown(),
            None => Err(PluginError::PreShutdownError),
        }
    }

    /// Tells the plugin called `name` once more to shut down.
    pub fn plugin_shutdown(&self, name: String) -> (answer: Result<(), PluginError>)
        ensures
            match find_plugin(self.plugins.entries(), name@) {
                Some(proxy) => call_ensures(P::shutdown, (&proxy.wrapped(),), answer),
                None => answer matches Err(PluginError::ShutdownError),
            },
    {
        match self.plugins.get(&name) {
            Some(proxy) => proxy.shutdown(),
            None => Err(PluginError::ShutdownError),
        }
    }

    /// Nothing is left to do once every part of the system is in service.
    pub fn post_init(&self) {
    }

    /// Nothing is to do before the system goes out of service.
    pub fn pre_shutdown(&self) {
    }

    /// Takes the registry out of service: leads every loaded plugin out of
    /// service.
    pub fn shutdown(&self) -> (report: Vec<PhaseReport>)
        ensures
            unloading_report(self.plugins.entries(), report@),
    {
        self.unload_plugins()
    }
}

/// Whether `after` is what a manager that held `before` holds once it was
/// given the answer of a plugin: the provider comes last where the plugin
/// supplied one, and nothing changes where it did not.
pub open spec fn taken_over<T>(before: Seq<T>, after: Seq<T>, answer: Result<T, PluginError>) -> bool {
    after == match answer {
        Ok(provider) => before.push(provider),
        Err(_) => before,
    }
}

/// Whether `entry` tells how the plugin at place `k` of `entries` went
/// through `phase`: it bears the name of the plugin, names the phase, and
/// gives an answer of the plugin to the call of that phase.
pub open spec fn phase_reported<P: Plugin>(
    entries: Seq<(Seq<char>, PluginProxy<P>)>,
    entry: PhaseReport,
    k: int,
    phase: ShutdownPhase,
) -> bool {
    &&& 0 <= k < entries.len()
    &&& entry.plugin@ == entries[k].0
    &&& entry.phase == phase
    &&& match phase {
        ShutdownPhase::PreShutdown => call_ensures(
            P::pre_shutdown,
            (&entries[k].1.wrapped(),),
            entry.outcome,
        ),
        ShutdownPhase::Shutdown => call_ensures(
            P::shutdown,
            (&entries[k].1.wrapped(),),
            entry.outcome,
        ),
    }
}

/// Whether `report` tells of the unloading of `entries`: one call before
/// shutdown for every plugin, in the order of the plugins, and then one
/// call of shutdown for every plugin, in the same order, whatever the
/// answers were.
pub open spec fn unloading_report<P: Plugin>(
    entries: Seq<(Seq<char>, PluginProxy<P>)>,
    report: Seq<PhaseReport>,
) -> bool {
    &&& report.len() == 2 * entries.len()
    &&& forall|k: int|
        0 <= k < entries.len() ==> phase_reported(
            entries,
            #[trigger] report[k],
            k,
            ShutdownPhase::PreShutdown,
        )
    &&& forall|k: int|
        0 <= k < entries.len() ==> phase_reported(
            entries,
            #[trigger] report[entries.len() + k],
            k,
            ShutdownPhase::Shutdown,
        )
}

} // verus!
