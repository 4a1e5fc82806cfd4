use otss::otss_pm::config::{ConfigManager, ConfigValue};

#[test]
fn test_config_manager_default() {
    let manager = ConfigManager::default();
    assert!(!manager.has("test"));
}

#[test]
fn test_set_get() {
    let mut manager = ConfigManager::new();
    manager.set("key".to_string(), ConfigValue::String("value".to_string()));
    assert_eq!(manager.get_string("key"), Some("value"));
}

#[test]
fn test_get_string() {
    let mut manager = ConfigManager::new();
    manager.set("name".to_string(), ConfigValue::String("test".to_string()));
    assert_eq!(manager.get_string("name"), Some("test"));
}

#[test]
fn test_get_bool() {
    let mut manager = ConfigManager::new();
    manager.set("enabled".to_string(), ConfigValue::Bool(true));
    assert_eq!(manager.get_bool("enabled"), Some(true));
}

#[test]
fn set_replaces_and_kinds_must_match() {
    let mut manager = ConfigManager::new();
    manager.set("rate".to_string(), ConfigValue::Number(2.5f64.to_bits()));
    manager.set("name".to_string(), ConfigValue::String("a".to_string()));
    assert_eq!(manager.get_number("rate").map(f64::from_bits), Some(2.5));
    assert_eq!(manager.get_string("rate"), None);
    assert_eq!(manager.get_bool("name"), None);
    manager.set("name".to_string(), ConfigValue::Bool(false));
    assert_eq!(manager.get_bool("name"), Some(false));
    assert!(matches!(manager.get("rate"), Some(ConfigValue::Number(_))));
    assert!(manager.get("missing").is_none());
    manager.load_file(std::path::PathBuf::from("otss.json")).unwrap();
    manager.save().unwrap();
    assert!(manager.has("rate"));
}

#[test]
fn loader_from_file_gives_an_empty_store() {
    let loader = otss::otss_pm::config::ConfigLoader::new();
    let manager = loader.from_file(&std::path::PathBuf::from("x.toml")).unwrap();
    assert!(!manager.has("anything"));
}
