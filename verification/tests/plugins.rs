use std::cell::RefCell;
use std::rc::Rc;
use std::sync::{Arc, Weak};

use rgf_runtime::api::EntityTypeManager;
use rgf_runtime::implementation::{
    create_relation_behaviour_providers, ComponentBehaviourManagerImpl, ComponentManagerImpl,
    EntityBehaviourManagerImpl, EntityTypeManagerImpl, OpenedLibrary, PhaseReport,
    PluginLoadReport, PluginRegistryImpl, ReactiveFlowManagerImpl, RelationBehaviourManagerImpl,
    RelationTypeManagerImpl, ShutdownPhase, WebResourceManagerImpl,
};
use rgf_runtime::model::{
    Component, DataType, EntityType, EntityTypeBuilder, PropertyType, ReactiveEntityInstance,
    ReactiveRelationInstance, RelationType,
};
use rgf_runtime::plugin::{PluginConfig, PluginProxies, PluginProxy, PluginRegistrar, PluginsConfig};
use rgf_runtime::plugins::{
    ComponentBehaviourProvider, ComponentProvider, EntityBehaviourProvider, EntityTypeProvider,
    FlowProvider, Plugin, PluginContext, PluginDeclaration, PluginError, PluginMetadata,
    PluginRegistration, RelationBehaviourProvider, RelationTypeProvider, WebResourceProvider,
};

type Log = Rc<RefCell<Vec<String>>>;

const HOST_RUSTC: &str = "1.95.0";
const HOST_API: &str = "0.4.0";

struct Supplies(Log, String);

impl Supplies {
    fn note(&self, what: &str) {
        self.0.borrow_mut().push(format!("{}:{}", self.1, what));
    }
}

impl ComponentProvider for Supplies {
    fn get_components(&self) -> Vec<Component> {
        self.note("components");
        vec![Component::new(
            "labeled".to_string(),
            vec![PropertyType::new("name".to_string(), DataType::String)],
        )]
    }
}

impl EntityTypeProvider for Supplies {
    fn get_entity_types(&self) -> Vec<EntityType> {
        self.note("entity_types");
        vec![EntityTypeBuilder::new("person").component("labeled").build()]
    }
}

impl RelationTypeProvider for Supplies {
    fn get_relation_types(&self) -> Vec<RelationType> {
        self.note("relation_types");
        vec![RelationType::new(
            "person".to_string(),
            "friend_of".to_string(),
            "labeled".to_string(),
            String::new(),
            vec![],
            vec![],
            vec![],
        )]
    }
}

impl EntityBehaviourProvider for Supplies {
    fn add_behaviours(&self, entity_instance: &ReactiveEntityInstance) {
        self.note(&format!("add {}", entity_instance.entity_type));
    }

    fn remove_behaviours(&self, entity_instance: &ReactiveEntityInstance) {
        self.note(&format!("remove {}", entity_instance.entity_type));
    }

    fn remove_behaviours_by_id(&self, id: uuid::Uuid) {
        self.note(&format!("remove by id {}", id));
    }
}

impl RelationBehaviourProvider for Supplies {
    fn add_behaviours(&self, relation_instance: &ReactiveRelationInstance) {
        self.note(&format!("add {}", relation_instance.relation_type));
    }

    fn remove_behaviours(&self, relation_instance: &ReactiveRelationInstance) {
        self.note(&format!("remove {}", relation_instance.relation_type));
    }

    fn remove_behaviours_by_key(&self, edge_key: &indradb::EdgeKey) {
        self.note(&format!("remove by key {}", edge_key.t.as_str()));
    }
}

impl ComponentBehaviourProvider for Supplies {
    fn add_behaviours_to_entity(&self, entity_instance: &ReactiveEntityInstance) {
        self.note(&format!("add to entity {}", entity_instance.entity_type));
    }

    fn add_behaviours_to_relation(&self, relation_instance: &ReactiveRelationInstance) {
        self.note(&format!("add to relation {}", relation_instance.relation_type));
    }

    fn remove_behaviours_from_entity(&self, entity_instance: &ReactiveEntityInstance) {
        self.note(&format!("remove from entity {}", entity_instance.entity_type));
    }

    fn remove_behaviours_from_relation(&self, relation_instance: &ReactiveRelationInstance) {
        self.note(&format!("remove from relation {}", relation_instance.relation_type));
    }

    fn remove_behaviours_by_id(&self, id: uuid::Uuid) {
        self.note(&format!("remove by id {}", id));
    }

    fn remove_behaviours_by_key(&self, edge_key: &indradb::EdgeKey) {
        self.note(&format!("remove by key {}", edge_key.t.as_str()));
    }
}

impl FlowProvider for Supplies {
    fn get_flows(&self) -> Vec<String> {
        vec!["{}".to_string()]
    }
}

impl WebResourceProvider for Supplies {
    fn get_base_path(&self) -> String {
        self.1.clone()
    }
}

struct FakePlugin {
    name: String,
    log: Log,
    fail_init: bool,
    fail_pre_shutdown: bool,
    fail_shutdown: bool,
    supplies: bool,
    library: Option<Weak<libloading::Library>>,
}

impl Drop for FakePlugin {
    fn drop(&mut self) {
        if let Some(library) = &self.library {
            if library.upgrade().is_some() {
                self.note("dropped while mapped");
            } else {
                self.note("dropped after unmapping");
            }
        }
    }
}

impl FakePlugin {
    fn new(name: &str, log: &Log) -> Self {
        FakePlugin {
            name: name.to_string(),
            log: log.clone(),
            fail_init: false,
            fail_pre_shutdown: false,
            fail_shutdown: false,
            supplies: true,
            library: None,
        }
    }

    fn note(&self, what: &str) {
        self.log.borrow_mut().push(format!("{}:{}", self.name, what));
    }

    fn supply(&self, missing: PluginError) -> Result<Supplies, PluginError> {
        if self.supplies {
            Ok(Supplies(self.log.clone(), self.name.clone()))
        } else {
            Err(missing)
        }
    }
}

impl Plugin for FakePlugin {
    type Components = Supplies;
    type EntityTypes = Supplies;
    type RelationTypes = Supplies;
    type ComponentBehaviours = Supplies;
    type EntityBehaviours = Supplies;
    type RelationBehaviours = Supplies;
    type Flows = Supplies;
    type WebResources = Supplies;

    fn metadata(&self) -> Result<PluginMetadata, PluginError> {
        Ok(PluginMetadata {
            name: self.name.clone(),
            description: String::new(),
            version: "1".to_string(),
        })
    }

    fn init(&self) -> Result<(), PluginError> {
        self.note("init");
        if self.fail_init {
            Err(PluginError::InitializationError)
        } else {
            Ok(())
        }
    }

    fn post_init(&self) -> Result<(), PluginError> {
        self.note("post_init");
        Ok(())
    }

    fn pre_shutdown(&self) -> Result<(), PluginError> {
        self.note("pre_shutdown");
        if self.fail_pre_shutdown {
            Err(PluginError::PreShutdownError)
        } else {
            Ok(())
        }
    }

    fn shutdown(&self) -> Result<(), PluginError> {
        self.note("shutdown");
        if self.fail_shutdown {
            Err(PluginError::Other { message: "stuck".to_string() })
        } else {
            Ok(())
        }
    }

    fn set_context(&self, context: &mut PluginContext) -> Result<(), PluginError> {
        self.note("set_context");
        context.entity_type_manager.create(
            context.component_manager.registry(),
            format!("{}_type", self.name),
            String::new(),
            vec!["labeled".to_string()],
            vec![],
            vec![],
        );
        Ok(())
    }

    fn get_component_provider(&self) -> Result<Supplies, PluginError> {
        self.supply(PluginError::NoComponentProvider)
    }

    fn get_entity_type_provider(&self) -> Result<Supplies, PluginError> {
        self.supply(PluginError::NoEntityTypeProvider)
    }

    fn get_relation_type_provider(&self) -> Result<Supplies, PluginError> {
        self.supply(PluginError::NoRelationTypeProvider)
    }

    fn get_component_behaviour_provider(&self) -> Result<Supplies, PluginError> {
        self.supply(PluginError::NoComponentBehaviourProvider)
    }

    fn get_entity_behaviour_provider(&self) -> Result<Supplies, PluginError> {
        self.supply(PluginError::NoEntityBehaviourProvider)
    }

    fn get_relation_behaviour_provider(&self) -> Result<Supplies, PluginError> {
        self.supply(PluginError::NoRelationBehaviourProvider)
    }

    fn get_flow_provider(&self) -> Result<Supplies, PluginError> {
        self.supply(PluginError::NoFlowProvider)
    }

    fn get_web_resource_provider(&self) -> Result<Supplies, PluginError> {
        self.supply(PluginError::NoWebResourceProvider)
    }
}

struct EntryPoint {
    log: Log,
    plugins: RefCell<Vec<(String, FakePlugin)>>,
}

impl PluginRegistration<FakePlugin> for EntryPoint {
    fn register(&self, registrar: &mut PluginRegistrar<FakePlugin>) {
        self.log.borrow_mut().push("register".to_string());
        for (name, plugin) in self.plugins.borrow_mut().drain(..) {
            registrar.register_plugin(&name, plugin);
        }
    }
}

fn library() -> Arc<libloading::Library> {
    Arc::new(libloading::os::unix::Library::this().into())
}

fn opened(
    rustc: &str,
    api: &str,
    log: &Log,
    library: &Arc<libloading::Library>,
    plugins: Vec<(&str, FakePlugin)>,
) -> Option<OpenedLibrary<EntryPoint>> {
    Some(OpenedLibrary {
        declaration: PluginDeclaration {
            rustc_version: rustc.to_string(),
            inexor_rgf_plugin_version: api.to_string(),
            register: EntryPoint {
                log: log.clone(),
                plugins: RefCell::new(
                    plugins.into_iter().map(|(name, plugin)| (name.to_string(), plugin)).collect(),
                ),
            },
        },
        library: library.clone(),
    })
}

fn registry() -> PluginRegistryImpl<FakePlugin> {
    PluginRegistryImpl::new(
        HOST_RUSTC.to_string(),
        HOST_API.to_string(),
        ComponentManagerImpl::new(),
        EntityTypeManagerImpl::new(),
        RelationTypeManagerImpl::new(),
    )
}

fn log() -> Log {
    Rc::new(RefCell::new(Vec::new()))
}

fn lines(log: &Log) -> Vec<String> {
    log.borrow().clone()
}

#[test]
fn library_that_could_not_be_opened_is_refused() {
    let mut registry = registry();
    assert_eq!(registry.load::<EntryPoint>(None), Err(PluginError::PluginCreationError));
    assert_eq!(registry.plugins.len(), 0);
    assert!(registry.libraries.0.is_empty());
}

#[test]
fn library_of_another_toolchain_is_refused() {
    let log = log();
    let library = library();
    let mut registry = registry();
    let loaded = registry.load(opened(
        "1.94.0",
        HOST_API,
        &log,
        &library,
        vec![("a", FakePlugin::new("a", &log))],
    ));
    assert_eq!(
        loaded,
        Err(PluginError::Other { message: "Version mismatch: rustc".to_string() })
    );
    assert!(lines(&log).is_empty());
    assert_eq!(registry.plugins.len(), 0);
    assert!(registry.libraries.0.is_empty());
    assert_eq!(Arc::strong_count(&library), 1);
}

#[test]
fn library_of_another_interface_version_is_refused() {
    let log = log();
    let library = library();
    let mut registry = registry();
    registry.load(opened(HOST_RUSTC, HOST_API, &log, &library, vec![("kept", FakePlugin::new("kept", &log))]))
        .unwrap();
    let other = self::library();
    let loaded = registry.load(opened(
        HOST_RUSTC,
        "0.5.0",
        &log,
        &other,
        vec![("a", FakePlugin::new("a", &log)), ("kept", FakePlugin::new("usurper", &log))],
    ));
    assert_eq!(
        loaded,
        Err(PluginError::Other {
            message: "Version mismatch: inexor_rgf_core_plugins".to_string()
        })
    );
    assert_eq!(lines(&log), vec!["register".to_string()]);
    assert_eq!(registry.plugins.len(), 1);
    assert!(registry.has("kept".to_string()));
    assert!(!registry.has("a".to_string()));
    assert_eq!(registry.libraries.0.len(), 1);
    assert_eq!(Arc::strong_count(&other), 1);
    assert_eq!(registry.plugin_init("kept".to_string()), Ok(()));
    assert_eq!(lines(&log), vec!["register".to_string(), "kept:init".to_string()]);
}

#[test]
fn toolchain_is_checked_before_the_interface_version() {
    let log = log();
    let mut registry = registry();
    let loaded = registry.load(opened("other", "other", &log, &library(), vec![]));
    assert_eq!(
        loaded,
        Err(PluginError::Other { message: "Version mismatch: rustc".to_string() })
    );
    let declaration = PluginDeclaration {
        rustc_version: HOST_RUSTC.to_string(),
        inexor_rgf_plugin_version: HOST_API.to_string(),
        register: (),
    };
    assert_eq!(registry.check_declaration(&declaration), Ok(()));
}

#[test]
fn admitted_library_is_kept_with_its_plugins() {
    let log = log();
    let library = library();
    let mut registry = registry();
    let loaded = registry.load(opened(
        HOST_RUSTC,
        HOST_API,
        &log,
        &library,
        vec![("a", FakePlugin::new("a", &log)), ("b", FakePlugin::new("b", &log))],
    ));
    assert_eq!(loaded, Ok(()));
    assert_eq!(lines(&log), vec!["register".to_string()]);
    assert!(registry.has("a".to_string()));
    assert!(registry.has("b".to_string()));
    assert!(!registry.has("c".to_string()));
    assert!(registry.get("a".to_string()).is_some());
    assert!(registry.get("c".to_string()).is_none());
    assert_eq!(registry.libraries.0.len(), 1);
    // One handle is here, one in the list of libraries, one in each proxy.
    assert_eq!(Arc::strong_count(&library), 4);
    drop(registry);
    assert_eq!(Arc::strong_count(&library), 1);
}

#[test]
fn plugin_of_a_taken_name_replaces_the_earlier_one() {
    let log = log();
    let mut registry = registry();
    registry
        .load(opened(
            HOST_RUSTC,
            HOST_API,
            &log,
            &library(),
            vec![("a", FakePlugin::new("old", &log)), ("b", FakePlugin::new("b", &log))],
        ))
        .unwrap();
    registry
        .load(opened(HOST_RUSTC, HOST_API, &log, &library(), vec![("a", FakePlugin::new("new", &log))]))
        .unwrap();
    assert_eq!(registry.plugins.len(), 2);
    assert_eq!(registry.plugins.name_at(0), "a");
    assert_eq!(registry.plugins.name_at(1), "b");
    assert_eq!(registry.libraries.0.len(), 2);
    log.borrow_mut().clear();
    registry.plugin_init("a".to_string()).unwrap();
    assert_eq!(lines(&log), vec!["new:init".to_string()]);
}

#[test]
fn loaded_plugin_is_brought_into_service() {
    let log = log();
    let mut registry = registry();
    let report = registry.load_plugin(
        "a".to_string(),
        opened(HOST_RUSTC, HOST_API, &log, &library(), vec![("a", FakePlugin::new("a", &log))]),
    );
    assert_eq!(report, PluginLoadReport::Activated { context: Ok(()), post_init: Ok(()) });
    assert_eq!(
        lines(&log),
        vec![
            "register".to_string(),
            "a:init".to_string(),
            "a:components".to_string(),
            "a:entity_types".to_string(),
            "a:relation_types".to_string(),
            "a:set_context".to_string(),
            "a:post_init".to_string(),
        ]
    );
    assert!(registry.component_manager.has("labeled".to_string()));
    let person = registry.entity_type_manager.get("person".to_string()).unwrap();
    assert_eq!(person.properties.len(), 1);
    assert!(registry.relation_type_manager.has("friend_of".to_string()));
    assert_eq!(registry.component_behaviour_manager.provider_count(), 1);
    assert_eq!(registry.entity_behaviour_manager.provider_count(), 1);
    assert_eq!(registry.relation_behaviour_manager.provider_count(), 1);
    assert_eq!(registry.reactive_flow_manager.provider_count(), 1);
    assert_eq!(registry.web_resource_manager.provider_count(), 1);
    assert_eq!(registry.web_resource_manager.provider(0).get_base_path(), "a");
    assert_eq!(registry.reactive_flow_manager.provider(0).get_flows(), vec!["{}".to_string()]);
    // What the plugin created through its context is in the registry.
    let created = registry.entity_type_manager.get("a_type".to_string()).unwrap();
    assert_eq!(created.properties.len(), 1);
}

#[test]
fn plugin_without_providers_is_no_failure() {
    let log = log();
    let mut registry = registry();
    let mut plugin = FakePlugin::new("bare", &log);
    plugin.supplies = false;
    let report = registry.load_plugin(
        "bare".to_string(),
        opened(HOST_RUSTC, HOST_API, &log, &library(), vec![("bare", plugin)]),
    );
    assert_eq!(report, PluginLoadReport::Activated { context: Ok(()), post_init: Ok(()) });
    assert!(registry.component_manager.get_components().is_empty());
    assert_eq!(registry.relation_behaviour_manager.provider_count(), 0);
    assert_eq!(registry.web_resource_manager.provider_count(), 0);
    assert!(registry.entity_type_manager.has("bare_type".to_string()));
}

#[test]
fn refused_library_leaves_everything_as_it_was() {
    let log = log();
    let mut registry = registry();
    let report = registry.load_plugin::<EntryPoint>("a".to_string(), None);
    assert_eq!(report, PluginLoadReport::LoadFailed(PluginError::PluginCreationError));
    let report = registry.load_plugin(
        "a".to_string(),
        opened(HOST_RUSTC, "nope", &log, &library(), vec![("a", FakePlugin::new("a", &log))]),
    );
    assert_eq!(
        report,
        PluginLoadReport::LoadFailed(PluginError::Other {
            message: "Version mismatch: inexor_rgf_core_plugins".to_string()
        })
    );
    assert!(lines(&log).is_empty());
    assert_eq!(registry.plugins.len(), 0);
    assert!(registry.libraries.0.is_empty());
    assert!(registry.entity_type_manager.get_entity_types().is_empty());
}

#[test]
fn plugin_that_was_not_registered_is_not_initialized() {
    let log = log();
    let mut registry = registry();
    let report = registry.load_plugin(
        "wanted".to_string(),
        opened(HOST_RUSTC, HOST_API, &log, &library(), vec![("other", FakePlugin::new("other", &log))]),
    );
    assert_eq!(report, PluginLoadReport::NotRegistered);
    assert_eq!(lines(&log), vec!["register".to_string()]);
    assert!(registry.has("other".to_string()));
    assert_eq!(registry.libraries.0.len(), 1);
    assert!(registry.component_manager.get_components().is_empty());
}

#[test]
fn plugin_that_fails_to_initialize_contributes_nothing() {
    let log = log();
    let mut registry = registry();
    let mut plugin = FakePlugin::new("a", &log);
    plugin.fail_init = true;
    let report = registry.load_plugin(
        "a".to_string(),
        opened(HOST_RUSTC, HOST_API, &log, &library(), vec![("a", plugin)]),
    );
    assert_eq!(report, PluginLoadReport::InitFailed(PluginError::InitializationError));
    assert_eq!(lines(&log), vec!["register".to_string(), "a:init".to_string()]);
    assert!(registry.has("a".to_string()));
    assert!(registry.component_manager.get_components().is_empty());
    assert!(registry.entity_type_manager.get_entity_types().is_empty());
    assert_eq!(registry.entity_behaviour_manager.provider_count(), 0);
}

#[test]
fn every_plugin_goes_through_both_phases_of_shutdown() {
    let log = log();
    let mut registry = registry();
    let mut failing = FakePlugin::new("b", &log);
    failing.fail_pre_shutdown = true;
    let mut stuck = FakePlugin::new("c", &log);
    stuck.fail_shutdown = true;
    registry
        .load(opened(
            HOST_RUSTC,
            HOST_API,
            &log,
            &library(),
            vec![("a", FakePlugin::new("a", &log)), ("b", failing), ("c", stuck)],
        ))
        .unwrap();
    log.borrow_mut().clear();
    let report = registry.unload_plugins();
    assert_eq!(
        lines(&log),
        vec![
            "a:pre_shutdown".to_string(),
            "b:pre_shutdown".to_string(),
            "c:pre_shutdown".to_string(),
            "a:shutdown".to_string(),
            "b:shutdown".to_string(),
            "c:shutdown".to_string(),
        ]
    );
    let entry = |plugin: &str, phase: ShutdownPhase, outcome: Result<(), PluginError>| PhaseReport {
        plugin: plugin.to_string(),
        phase,
        outcome,
    };
    assert_eq!(
        report,
        vec![
            entry("a", ShutdownPhase::PreShutdown, Ok(())),
            entry("b", ShutdownPhase::PreShutdown, Err(PluginError::PreShutdownError)),
            entry("c", ShutdownPhase::PreShutdown, Ok(())),
            entry("a", ShutdownPhase::Shutdown, Ok(())),
            entry("b", ShutdownPhase::Shutdown, Ok(())),
            entry(
                "c",
                ShutdownPhase::Shutdown,
                Err(PluginError::Other { message: "stuck".to_string() })
            ),
        ]
    );
    log.borrow_mut().clear();
    registry.post_init();
    registry.pre_shutdown();
    assert_eq!(registry.shutdown().len(), 6);
    assert_eq!(lines(&log).len(), 6);
}

#[test]
fn unloading_without_plugins_calls_nobody() {
    assert!(registry().unload_plugins().is_empty());
}

#[test]
fn phase_of_an_unknown_plugin_fails_with_the_error_of_the_phase() {
    let registry = registry();
    assert_eq!(registry.plugin_init("x".to_string()), Err(PluginError::InitializationError));
    assert_eq!(
        registry.plugin_post_init("x".to_string()),
        Err(PluginError::PostInitializationError)
    );
    assert_eq!(registry.plugin_pre_shutdown("x".to_string()), Err(PluginError::PreShutdownError));
    assert_eq!(registry.plugin_shutdown("x".to_string()), Err(PluginError::ShutdownError));
}

#[test]
fn phase_of_a_loaded_plugin_is_answered_by_the_plugin() {
    let log = log();
    let mut registry = registry();
    let mut plugin = FakePlugin::new("a", &log);
    plugin.fail_pre_shutdown = true;
    registry.load(opened(HOST_RUSTC, HOST_API, &log, &library(), vec![("a", plugin)])).unwrap();
    log.borrow_mut().clear();
    assert_eq!(registry.plugin_init("a".to_string()), Ok(()));
    assert_eq!(registry.plugin_post_init("a".to_string()), Ok(()));
    assert_eq!(registry.plugin_pre_shutdown("a".to_string()), Err(PluginError::PreShutdownError));
    assert_eq!(registry.plugin_shutdown("a".to_string()), Ok(()));
    assert_eq!(
        lines(&log),
        vec![
            "a:init".to_string(),
            "a:post_init".to_string(),
            "a:pre_shutdown".to_string(),
            "a:shutdown".to_string(),
        ]
    );
}

#[test]
fn proxy_answers_with_the_plugin() {
    let log = log();
    let library = library();
    let mut plugin = FakePlugin::new("p", &log);
    plugin.fail_init = true;
    let proxy = PluginProxy::new(plugin, library.clone());
    assert_eq!(Arc::strong_count(&library), 2);
    assert_eq!(proxy.metadata().unwrap().name, "p");
    assert_eq!(proxy.init(), Err(PluginError::InitializationError));
    assert_eq!(proxy.post_init(), Ok(()));
    assert_eq!(proxy.pre_shutdown(), Ok(()));
    assert_eq!(proxy.shutdown(), Ok(()));
    assert!(proxy.get_component_provider().is_ok());
    assert!(proxy.get_entity_type_provider().is_ok());
    assert!(proxy.get_relation_type_provider().is_ok());
    assert!(proxy.get_component_behaviour_provider().is_ok());
    assert!(proxy.get_entity_behaviour_provider().is_ok());
    assert!(proxy.get_relation_behaviour_provider().is_ok());
    assert!(proxy.get_flow_provider().is_ok());
    assert_eq!(proxy.get_web_resource_provider().unwrap().get_base_path(), "p");
    let mut context = PluginContext::new(
        ComponentManagerImpl::new(),
        EntityTypeManagerImpl::new(),
        RelationTypeManagerImpl::new(),
    );
    assert_eq!(proxy.set_context(&mut context), Ok(()));
    let (_, entity_types, _) = context.into_parts();
    assert!(entity_types.has("p_type".to_string()));
    drop(proxy);
    assert_eq!(Arc::strong_count(&library), 1);
}

#[test]
fn registrar_wraps_each_plugin_with_the_library() {
    let log = log();
    let library = library();
    let mut registrar = PluginRegistrar::new(library.clone());
    registrar.register_plugin("a", FakePlugin::new("first", &log));
    registrar.register_plugin("b", FakePlugin::new("b", &log));
    registrar.register_plugin("a", FakePlugin::new("second", &log));
    let plugins: PluginProxies<FakePlugin> = registrar.into_plugins();
    assert_eq!(plugins.len(), 2);
    assert_eq!(plugins.name_at(0), "a");
    assert_eq!(plugins.proxy_at(0).metadata().unwrap().name, "second");
    assert_eq!(plugins.position(&"b".to_string()), Some(1));
    assert_eq!(plugins.position(&"c".to_string()), None);
    assert!(plugins.has(&"b".to_string()));
    assert!(plugins.get(&"c".to_string()).is_none());
    assert_eq!(Arc::strong_count(&library), 3);
}

#[test]
fn plugin_maps_are_merged_entry_by_entry() {
    let log = log();
    let library = library();
    let mut ours = PluginProxies::new();
    ours.insert("a".to_string(), PluginProxy::new(FakePlugin::new("a1", &log), library.clone()));
    ours.insert("b".to_string(), PluginProxy::new(FakePlugin::new("b1", &log), library.clone()));
    let mut theirs = PluginProxies::new();
    theirs.insert("c".to_string(), PluginProxy::new(FakePlugin::new("c2", &log), library.clone()));
    theirs.insert("a".to_string(), PluginProxy::new(FakePlugin::new("a2", &log), library.clone()));
    theirs.insert("d".to_string(), PluginProxy::new(FakePlugin::new("d2", &log), library.clone()));
    ours.extend(theirs);
    let held: Vec<(String, String)> = (0..ours.len())
        .map(|i| (ours.name_at(i).clone(), ours.proxy_at(i).metadata().unwrap().name))
        .collect();
    assert_eq!(
        held,
        vec![
            ("a".to_string(), "a2".to_string()),
            ("b".to_string(), "b1".to_string()),
            ("c".to_string(), "c2".to_string()),
            ("d".to_string(), "d2".to_string()),
        ]
    );
}

fn relation_instance() -> ReactiveRelationInstance {
    ReactiveRelationInstance {
        key: indradb::EdgeKey::new(
            uuid::Uuid::from_u128(1),
            indradb::Identifier::new("likes").unwrap(),
            uuid::Uuid::from_u128(2),
        ),
        relation_type: "likes".to_string(),
    }
}

fn entity_instance() -> ReactiveEntityInstance {
    ReactiveEntityInstance { id: uuid::Uuid::from_u128(7), entity_type: "person".to_string() }
}

#[test]
fn relation_behaviours_are_asked_of_every_provider_in_order() {
    let log = log();
    let mut manager = RelationBehaviourManagerImpl::new();
    let instance = relation_instance();
    manager.add_behaviours(&instance);
    assert!(lines(&log).is_empty());
    manager.add_provider(Supplies(log.clone(), "one".to_string()));
    manager.add_provider(Supplies(log.clone(), "two".to_string()));
    assert_eq!(manager.provider_count(), 2);
    // A provider that comes late is not handed what was handled before.
    assert!(lines(&log).is_empty());
    manager.add_behaviours(&instance);
    manager.remove_behaviours(&instance);
    manager.remove_behaviours_by_key(&instance.key);
    assert_eq!(
        lines(&log),
        vec![
            "one:add likes".to_string(),
            "two:add likes".to_string(),
            "one:remove likes".to_string(),
            "two:remove likes".to_string(),
            "one:remove by key likes".to_string(),
            "two:remove by key likes".to_string(),
        ]
    );
    assert!(create_relation_behaviour_providers::<Supplies>().0.is_empty());
}

#[test]
fn entity_behaviours_are_asked_of_every_provider_in_order() {
    let log = log();
    let mut manager = EntityBehaviourManagerImpl::new();
    manager.add_provider(Supplies(log.clone(), "one".to_string()));
    manager.add_provider(Supplies(log.clone(), "two".to_string()));
    assert_eq!(manager.provider_count(), 2);
    let instance = entity_instance();
    manager.add_behaviours(&instance);
    manager.remove_behaviours(&instance);
    manager.remove_behaviours_by_id(instance.id);
    assert_eq!(
        lines(&log),
        vec![
            "one:add person".to_string(),
            "two:add person".to_string(),
            "one:remove person".to_string(),
            "two:remove person".to_string(),
            format!("one:remove by id {}", instance.id),
            format!("two:remove by id {}", instance.id),
        ]
    );
}

#[test]
fn component_behaviours_are_asked_of_every_provider_in_order() {
    let log = log();
    let mut manager = ComponentBehaviourManagerImpl::new();
    manager.add_provider(Supplies(log.clone(), "one".to_string()));
    manager.add_provider(Supplies(log.clone(), "two".to_string()));
    assert_eq!(manager.provider_count(), 2);
    manager.add_behaviours_to_entity(&entity_instance());
    manager.add_behaviours_to_relation(&relation_instance());
    manager.remove_behaviours_from_entity(&entity_instance());
    manager.remove_behaviours_from_relation(&relation_instance());
    assert_eq!(
        lines(&log),
        vec![
            "one:add to entity person".to_string(),
            "two:add to entity person".to_string(),
            "one:add to relation likes".to_string(),
            "two:add to relation likes".to_string(),
            "one:remove from entity person".to_string(),
            "two:remove from entity person".to_string(),
            "one:remove from relation likes".to_string(),
            "two:remove from relation likes".to_string(),
        ]
    );
    let flows: ReactiveFlowManagerImpl<Supplies> = ReactiveFlowManagerImpl::new();
    assert_eq!(flows.provider_count(), 0);
    let web: WebResourceManagerImpl<Supplies> = WebResourceManagerImpl::new();
    assert_eq!(web.provider_count(), 0);
}

#[test]
fn active_plugins_are_loaded_in_the_order_of_the_file() {
    let entry = |name: &str, active: bool| PluginConfig {
        name: name.to_string(),
        path: format!("./plugins/lib{}.so", name),
        active,
    };
    let config = PluginsConfig {
        plugin: vec![
            entry("off", false),
            entry("first", true),
            entry("idle", false),
            entry("dark", false),
            entry("second", true),
            entry("last_off", false),
        ],
    };
    assert_eq!(config.next_to_load(0), Some(1));
    assert_eq!(config.next_to_load(1), Some(1));
    assert_eq!(config.next_to_load(2), Some(4));
    assert_eq!(config.next_to_load(5), None);
    assert_eq!(config.next_to_load(6), None);
    assert_eq!(config.next_to_load(60), None);
    let mut loaded = Vec::new();
    let mut from = 0;
    while let Some(place) = config.next_to_load(from) {
        loaded.push(config.plugin[place].name.clone());
        from = place + 1;
    }
    assert_eq!(loaded, vec!["first".to_string(), "second".to_string()]);
    assert_eq!(PluginsConfig { plugin: vec![] }.next_to_load(0), None);
}

#[test]
fn plugin_is_dropped_before_its_library_is_unmapped() {
    let log = log();
    let library = library();
    let mut plugin = FakePlugin::new("p", &log);
    plugin.library = Some(Arc::downgrade(&library));
    let proxy = PluginProxy::new(plugin, library);
    drop(proxy);
    assert_eq!(lines(&log), vec!["p:dropped while mapped".to_string()]);
}

#[test]
fn registry_drops_its_plugins_before_their_libraries() {
    let log = log();
    let library = library();
    let mut registry = registry();
    let mut first = FakePlugin::new("a", &log);
    first.library = Some(Arc::downgrade(&library));
    let mut second = FakePlugin::new("b", &log);
    second.library = Some(Arc::downgrade(&library));
    registry
        .load(opened(HOST_RUSTC, HOST_API, &log, &library, vec![("a", first), ("b", second)]))
        .unwrap();
    drop(library);
    log.borrow_mut().clear();
    drop(registry);
    assert_eq!(
        lines(&log),
        vec!["a:dropped while mapped".to_string(), "b:dropped while mapped".to_string()]
    );
}

#[test]
fn replaced_plugin_is_dropped_while_its_library_is_mapped() {
    let log = log();
    let old_library = library();
    let mut registry = registry();
    let mut old_plugin = FakePlugin::new("old", &log);
    old_plugin.library = Some(Arc::downgrade(&old_library));
    registry.load(opened(HOST_RUSTC, HOST_API, &log, &old_library, vec![("a", old_plugin)])).unwrap();
    drop(old_library);
    log.borrow_mut().clear();
    registry
        .load(opened(HOST_RUSTC, HOST_API, &log, &library(), vec![("a", FakePlugin::new("new", &log))]))
        .unwrap();
    assert_eq!(
        lines(&log),
        vec!["register".to_string(), "old:dropped while mapped".to_string()]
    );
}
