use adaptive_reasoner::config::{Config, FileConfigLoader, ModelConfig};
use adaptive_reasoner::models::model_list::{ObjectType, Owner};

fn route(name: &str, budget: i32) -> ModelConfig {
    ModelConfig {
        model_name: name.to_string(),
        api_url: "http://localhost:8081".to_string(),
        api_key: "KEY_VAR".to_string(),
        reasoning_budget: budget,
        extra: None,
    }
}

#[test]
fn a_route_is_found_by_its_logical_name() {
    let mut config = Config::new();
    assert!(config.find(&"a".to_string()).is_none());
    config.insert("a".to_string(), route("up-a", 1));
    config.insert("b".to_string(), route("up-b", 2));
    assert_eq!(config.find(&"a".to_string()).unwrap().model_name, "up-a");
    assert_eq!(config.find(&"b".to_string()).unwrap().reasoning_budget, 2);
    assert!(config.find(&"up-a".to_string()).is_none());
    assert!(config.find(&"".to_string()).is_none());
    assert_eq!(config.position(&"b".to_string()), Some(1));
    assert_eq!(config.position(&"c".to_string()), None);
}

#[test]
fn a_name_holds_one_route() {
    let mut config = Config::new();
    config.insert("a".to_string(), route("first", 1));
    config.insert("b".to_string(), route("other", 2));
    config.insert("a".to_string(), route("second", 3));
    assert_eq!(config.models.len(), 2);
    assert_eq!(config.models[0].name, "a");
    assert_eq!(config.find(&"a".to_string()).unwrap().model_name, "second");
    assert_eq!(config.find(&"b".to_string()).unwrap().model_name, "other");
}

#[test]
fn the_listing_names_every_route() {
    let mut config = Config::new();
    assert!(config.list_models().data.is_empty());
    config.insert("test-model".to_string(), route("up", 100));
    config.insert("second".to_string(), route("up2", 100));
    let list = config.list_models();
    assert_eq!(list.data.len(), 2);
    assert_eq!(list.data[0].id, "test-model");
    assert_eq!(list.data[1].id, "second");
    for model in &list.data {
        assert_eq!(model.object, ObjectType::Model);
        assert_eq!(model.created, 0);
        assert_eq!(model.owned_by, Owner::AdaptiveReasoner);
    }
}

#[test]
fn the_secret_takes_the_place_of_the_name_of_its_variable() {
    let mut config = route("up", 5);
    config.resolve_api_key(Some("s3cr3t".to_string()));
    assert_eq!(config.api_key, "s3cr3t");
    assert_eq!(config.model_name, "up");
    assert_eq!(config.reasoning_budget, 5);
    config.resolve_api_key(None);
    assert_eq!(config.api_key, "");
}

#[test]
fn the_file_is_the_one_named_or_the_default() {
    let loader = FileConfigLoader::new();
    assert_eq!(loader.config_file(None), "./config.json");
    assert_eq!(loader.config_file(Some("/etc/ar.json".to_string())), "/etc/ar.json");
}
