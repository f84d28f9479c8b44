use rgf_runtime::api::{EntityTypeManager, RelationTypeImportError, SystemEvent};
use rgf_runtime::identifier::IdentifierError;
use rgf_runtime::implementation::{
    create_relation_type_storage, ComponentManagerImpl, EntityTypeManagerImpl,
    RelationTypeManagerImpl, RelationTypes,
};
use rgf_runtime::model::{Component, DataType, EntityTypeBuilder, PropertyType, RelationType};
use rgf_runtime::plugins::RelationTypeProvider;

fn relation(outbound: &str, name: &str, inbound: &str) -> RelationType {
    RelationType::new(
        outbound.to_string(),
        name.to_string(),
        inbound.to_string(),
        String::new(),
        vec![],
        vec![],
        vec![],
    )
}

fn world() -> (ComponentManagerImpl, EntityTypeManagerImpl) {
    let mut components = ComponentManagerImpl::new();
    components.register(Component::new(
        "labeled".to_string(),
        vec![PropertyType::new("name".to_string(), DataType::String)],
    ));
    let mut entity_types = EntityTypeManagerImpl::new();
    entity_types.register(&components, EntityTypeBuilder::new("person").build());
    (components, entity_types)
}

#[test]
fn relation_between_known_ends_is_registered() {
    let (components, entity_types) = world();
    let mut relation_types = RelationTypeManagerImpl::new();
    assert!(!relation_types.has("friend_of".to_string()));
    relation_types.register(&components, &entity_types, relation("person", "friend_of", "person"));
    assert!(relation_types.has("friend_of".to_string()));
    let stored = relation_types.get("friend_of".to_string()).unwrap();
    assert_eq!(stored.identifier, "friend_of");
    assert_eq!(stored.full_name, "friend_of");
    assert_eq!(
        relation_types.take_events(),
        vec![SystemEvent::RelationTypeCreated("friend_of".to_string())]
    );
}

#[test]
fn unknown_outbound_type_is_rejected() {
    let (components, entity_types) = world();
    let mut relation_types = RelationTypeManagerImpl::new();
    relation_types.register(&components, &entity_types, relation("*", "any", "*"));
    relation_types.register(&components, &entity_types, relation("alien", "abducts", "person"));
    assert_eq!(relation_types.get_relation_types().len(), 1);
    assert!(!relation_types.has("abducts".to_string()));
}

#[test]
fn unknown_inbound_type_is_rejected() {
    let (components, entity_types) = world();
    let mut relation_types = RelationTypeManagerImpl::new();
    relation_types.register(&components, &entity_types, relation("person", "visits", "alien"));
    relation_types.register(&components, &entity_types, relation("labeled", "visits", "alien"));
    assert!(relation_types.get_relation_types().is_empty());
    assert!(relation_types.take_events().is_empty());
}

#[test]
fn end_may_be_wildcard_entity_type_or_component() {
    let (components, entity_types) = world();
    let mut relation_types = RelationTypeManagerImpl::new();
    relation_types.register(&components, &entity_types, relation("*", "a", "person"));
    relation_types.register(&components, &entity_types, relation("person", "b", "labeled"));
    relation_types.register(&components, &entity_types, relation("labeled", "c", "*"));
    relation_types.register(&components, &entity_types, relation("**", "d", "*"));
    let names: Vec<String> =
        relation_types.get_relation_types().into_iter().map(|t| t.name).collect();
    assert_eq!(names, vec!["a".to_string(), "b".to_string(), "c".to_string()]);
}

#[test]
fn relation_type_is_composed_of_its_components() {
    let (components, entity_types) = world();
    let mut relation_types = RelationTypeManagerImpl::new();
    relation_types.create(
        &components,
        &entity_types,
        "*".to_string(),
        "knows".to_string(),
        "*".to_string(),
        vec!["labeled".to_string(), "missing".to_string()],
        vec![PropertyType::new("since".to_string(), DataType::Number)],
        vec![],
    );
    let knows = relation_types.get("knows".to_string()).unwrap();
    let names: Vec<String> = knows.properties.into_iter().map(|p| p.name).collect();
    assert_eq!(names, vec!["since".to_string(), "name".to_string()]);
}

#[test]
fn relation_is_resolved_by_the_name_it_begins_with() {
    let (components, entity_types) = world();
    let mut relation_types = RelationTypeManagerImpl::new();
    relation_types.register(&components, &entity_types, relation("*", "rel", "*"));
    let resolved = relation_types.get_starts_with("rel__42".to_string()).unwrap();
    assert_eq!(resolved.name, "rel");
    assert_eq!(resolved.full_name, "rel__42");
    assert!(relation_types.has_starts_with("rel__42".to_string()));
    assert!(!relation_types.has("rel__42".to_string()));
    assert!(!relation_types.has_starts_with("re".to_string()));
    assert_eq!(relation_types.get_starts_with("other".to_string()), None);
    // The stored record keeps its own full name.
    assert_eq!(relation_types.get("rel".to_string()).unwrap().full_name, "rel");
}

#[test]
fn exact_name_comes_before_a_prefix() {
    let (components, entity_types) = world();
    let mut relation_types = RelationTypeManagerImpl::new();
    relation_types.register(&components, &entity_types, relation("*", "friend", "*"));
    relation_types.register(&components, &entity_types, relation("*", "friend_of", "person"));
    let exact = relation_types.get_starts_with("friend_of".to_string()).unwrap();
    assert_eq!(exact.name, "friend_of");
    assert_eq!(exact.full_name, "friend_of");
    assert_eq!(exact.inbound_type, "person");
    let fuzzy = relation_types.get_starts_with("friend_of__1".to_string()).unwrap();
    assert_eq!(fuzzy.name, "friend");
    assert_eq!(fuzzy.full_name, "friend_of__1");
}

#[test]
fn relation_search_and_deletion() {
    let (components, entity_types) = world();
    let mut relation_types = RelationTypeManagerImpl::new();
    for name in ["foo", "bar", "foo_of", "foo"] {
        relation_types.register(&components, &entity_types, relation("*", name, "*"));
    }
    assert_eq!(relation_types.find("foo*".to_string()).len(), 3);
    assert_eq!(relation_types.find("b?r".to_string()).len(), 1);
    relation_types.take_events();
    relation_types.delete("foo".to_string());
    let names: Vec<String> =
        relation_types.get_relation_types().into_iter().map(|t| t.name).collect();
    assert_eq!(names, vec!["bar".to_string(), "foo_of".to_string()]);
    relation_types.delete("nothing".to_string());
    assert_eq!(
        relation_types.take_events(),
        vec![
            SystemEvent::RelationTypeDeleted("foo".to_string()),
            SystemEvent::RelationTypeDeleted("nothing".to_string()),
        ]
    );
}

#[test]
fn relation_name_that_is_no_identifier_is_not_registered() {
    let (components, entity_types) = world();
    let mut relation_types = RelationTypeManagerImpl::new();
    assert_eq!(
        relation_types.try_register(&components, &entity_types, relation("*", "a b", "*")),
        Err(IdentifierError::InvalidCharacter)
    );
    assert_eq!(
        relation_types.try_register(&components, &entity_types, relation("*", &"r".repeat(300), "*")),
        Err(IdentifierError::TooLong)
    );
    assert_eq!(
        relation_types.try_register(&components, &entity_types, relation("alien", "fine", "*")),
        Ok(())
    );
    assert!(relation_types.get_relation_types().is_empty());
    relation_types.create(
        &components,
        &entity_types,
        "*".to_string(),
        "a b".to_string(),
        "*".to_string(),
        vec![],
        vec![],
        vec![],
    );
    assert!(relation_types.get_relation_types().is_empty());
}

#[test]
fn relation_import_and_export() {
    let (components, entity_types) = world();
    let mut relation_types = RelationTypeManagerImpl::new();
    assert_eq!(relation_types.import(&components, &entity_types, None), Err(RelationTypeImportError));
    assert_eq!(
        relation_types.import(&components, &entity_types, Some(relation("*", "bad name", "*"))),
        Err(RelationTypeImportError)
    );
    let mut decoded = relation("person", "likes", "labeled");
    decoded.components.push("labeled".to_string());
    let imported = relation_types.import(&components, &entity_types, Some(decoded.clone())).unwrap();
    assert_eq!(imported.identifier, "likes");
    assert_eq!(imported.properties.len(), 1);
    assert_eq!(Some(imported), relation_types.get("likes".to_string()));
    let exported = relation_types.export("likes".to_string()).unwrap();
    assert_eq!(exported.identifier, "likes");
    assert_eq!(exported.outbound_type, "person");
    assert_eq!(relation_types.export("hates".to_string()), None);
    // A record with an unknown end is handed back, but not stored.
    let unknown = relation("alien", "probes", "person");
    assert_eq!(
        relation_types.import(&components, &entity_types, Some(unknown.clone())),
        Ok(unknown)
    );
    assert!(!relation_types.has("probes".to_string()));
}

struct SomeRelationTypes;

impl RelationTypeProvider for SomeRelationTypes {
    fn get_relation_types(&self) -> Vec<RelationType> {
        vec![
            relation("person", "one", "person"),
            relation("alien", "two", "person"),
            relation("*", "not three", "*"),
            relation("*", "four", "labeled"),
        ]
    }
}

#[test]
fn relation_provider_is_registered_record_by_record() {
    let (components, entity_types) = world();
    let mut relation_types = RelationTypeManagerImpl::new();
    relation_types.init();
    relation_types.add_provider(&components, &entity_types, &SomeRelationTypes);
    relation_types.post_init();
    let names: Vec<String> =
        relation_types.get_relation_types().into_iter().map(|t| t.name).collect();
    assert_eq!(names, vec!["one".to_string(), "four".to_string()]);
    relation_types.pre_shutdown();
    relation_types.shutdown();
    assert!(relation_types.get_relation_types().is_empty());
    let _storage: RelationTypes = create_relation_type_storage();
}

#[test]
fn entity_type_registered_later_opens_the_way() {
    let (components, mut entity_types) = world();
    let mut relation_types = RelationTypeManagerImpl::new();
    relation_types.register(&components, &entity_types, relation("place", "near", "place"));
    assert!(!relation_types.has("near".to_string()));
    entity_types.register(&components, EntityTypeBuilder::new("place").build());
    relation_types.register(&components, &entity_types, relation("place", "near", "place"));
    assert!(relation_types.has("near".to_string()));
}

#[test]
fn offer_says_whether_the_record_was_stored() {
    let (components, entity_types) = world();
    let mut relation_types = RelationTypeManagerImpl::new();
    let mut declared = relation("person", "knows", "labeled");
    declared.components.push("labeled".to_string());
    let stored = relation_types.offer(&components, &entity_types, declared).unwrap();
    assert_eq!(stored.identifier, "knows");
    assert_eq!(stored.properties.len(), 1);
    assert_eq!(relation_types.get("knows".to_string()), Some(stored));
    assert_eq!(relation_types.offer(&components, &entity_types, relation("alien", "probes", "*")), None);
    assert_eq!(relation_types.offer(&components, &entity_types, relation("*", "probes", "alien")), None);
    assert_eq!(relation_types.get_relation_types().len(), 1);
    assert_eq!(
        relation_types.take_events(),
        vec![SystemEvent::RelationTypeCreated("knows".to_string())]
    );
}

#[test]
fn exported_relation_type_comes_back_by_import() {
    let (components, entity_types) = world();
    let mut relation_types = RelationTypeManagerImpl::new();
    let mut declared = relation("person", "likes", "*");
    declared.description = "Someone likes something".to_string();
    declared.components.push("missing".to_string());
    declared.properties.push(PropertyType::new("since".to_string(), DataType::Number));
    relation_types.register(&components, &entity_types, declared);
    let exported = relation_types.export("likes".to_string()).unwrap();
    relation_types.delete("likes".to_string());
    assert_eq!(relation_types.export("likes".to_string()), None);
    let imported = relation_types.import(&components, &entity_types, Some(exported.clone()));
    assert_eq!(imported, Ok(exported.clone()));
    assert_eq!(relation_types.get("likes".to_string()), Some(exported));
}
