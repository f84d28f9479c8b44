use rgf_runtime::api::{ComponentImportError, SystemEvent};
use rgf_runtime::implementation::ComponentManagerImpl;
use rgf_runtime::model::{Component, DataType, Extension, PropertyType, SocketType};
use rgf_runtime::plugins::ComponentProvider;

fn labeled() -> Component {
    Component::new(
        "labeled".to_string(),
        vec![PropertyType::new("name".to_string(), DataType::String)],
    )
}

#[test]
fn registered_component_is_found() {
    let mut components = ComponentManagerImpl::new();
    assert!(!components.has("labeled".to_string()));
    let stored = components.register(labeled());
    assert_eq!(stored, labeled());
    assert!(components.has("labeled".to_string()));
    assert_eq!(components.get("labeled".to_string()), Some(labeled()));
    assert_eq!(components.get("other".to_string()), None);
    assert_eq!(components.get_components(), vec![labeled()]);
}

#[test]
fn component_lookup_answers_with_the_first() {
    let mut components = ComponentManagerImpl::new();
    components.register(labeled());
    components.register(Component::new("labeled".to_string(), vec![]));
    assert_eq!(components.get_components().len(), 2);
    assert_eq!(components.get("labeled".to_string()), Some(labeled()));
}

#[test]
fn component_search_keeps_the_order() {
    let mut components = ComponentManagerImpl::new();
    components.create("positionable".to_string(), vec![], vec![]);
    components.create("labeled".to_string(), vec![], vec![]);
    components.create("movable".to_string(), vec![], vec![]);
    let found: Vec<String> =
        components.find("*able".to_string()).into_iter().map(|c| c.name).collect();
    assert_eq!(found, vec!["positionable".to_string(), "movable".to_string()]);
    assert_eq!(components.find("?abeled".to_string()).len(), 1);
    assert_eq!(components.find("".to_string()).len(), 0);
}

#[test]
fn component_deletion_removes_every_record_and_always_tells() {
    let mut components = ComponentManagerImpl::new();
    components.register(labeled());
    components.register(Component::new("event".to_string(), vec![]));
    components.register(labeled());
    components.take_events();
    components.delete("labeled".to_string());
    assert!(!components.has("labeled".to_string()));
    assert_eq!(components.get_components(), vec![Component::new("event".to_string(), vec![])]);
    components.delete("labeled".to_string());
    assert_eq!(
        components.take_events(),
        vec![
            SystemEvent::ComponentDeleted("labeled".to_string()),
            SystemEvent::ComponentDeleted("labeled".to_string()),
        ]
    );
}

#[test]
fn composition_appends_in_the_order_of_the_references() {
    let mut components = ComponentManagerImpl::new();
    components.register(labeled());
    components.register(Component::new(
        "event".to_string(),
        vec![PropertyType::new("event".to_string(), DataType::Any)],
    ));
    let declared = vec![PropertyType::new("own".to_string(), DataType::Bool)];
    let referenced = vec!["event".to_string(), "missing".to_string(), "labeled".to_string()];
    let composed: Vec<String> =
        components.compose(&declared, &referenced).into_iter().map(|p| p.name).collect();
    assert_eq!(composed, vec!["own".to_string(), "event".to_string(), "name".to_string()]);
}

struct TwoComponents;

impl ComponentProvider for TwoComponents {
    fn get_components(&self) -> Vec<Component> {
        vec![labeled(), Component::new("event".to_string(), vec![])]
    }
}

#[test]
fn component_provider_is_registered_in_its_order() {
    let mut components = ComponentManagerImpl::new();
    components.create("first".to_string(), vec![], vec![]);
    components.add_provider(&TwoComponents);
    let names: Vec<String> = components.get_components().into_iter().map(|c| c.name).collect();
    assert_eq!(names, vec!["first".to_string(), "labeled".to_string(), "event".to_string()]);
    assert_eq!(
        components.take_events(),
        vec![
            SystemEvent::ComponentCreated("first".to_string()),
            SystemEvent::ComponentCreated("labeled".to_string()),
            SystemEvent::ComponentCreated("event".to_string()),
        ]
    );
    components.shutdown();
    assert!(components.get_components().is_empty());
}

#[test]
fn property_extensions_are_filtered_by_name() {
    let mut property = PropertyType::new("name".to_string(), DataType::String);
    assert_eq!(property.socket_type, SocketType::NoSocket);
    property.extensions.push(Extension::new("unit".to_string(), "\"m\"".to_string()));
    property.extensions.push(Extension::new("range".to_string(), "[0,1]".to_string()));
    property.extensions.push(Extension::new("unit".to_string(), "\"s\"".to_string()));
    assert_eq!(property.extensions(None).len(), 3);
    assert_eq!(
        property.extensions(Some("unit".to_string())),
        vec![
            Extension::new("unit".to_string(), "\"m\"".to_string()),
            Extension::new("unit".to_string(), "\"s\"".to_string()),
        ]
    );
    assert!(property.extensions(Some("uni".to_string())).is_empty());
    assert_eq!(property.clone(), property);
}

#[test]
fn component_import_and_export() {
    let mut components = ComponentManagerImpl::new();
    assert_eq!(components.import(None), Err(ComponentImportError));
    assert!(components.get_components().is_empty());
    assert_eq!(components.import(Some(labeled())), Ok(labeled()));
    assert_eq!(components.export("labeled".to_string()), Some(labeled()));
    assert_eq!(components.export("missing".to_string()), None);
    assert_eq!(
        components.take_events(),
        vec![SystemEvent::ComponentCreated("labeled".to_string())]
    );
}
