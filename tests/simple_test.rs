use plm::config::PluginSource;
use plm::{PluginConfig, ProjectConfig};
use plm::Timestamp;

/// A fixed creation time for configurations built in tests.
fn created() -> Timestamp {
    Timestamp { secs: 1_700_000_000, nanos: 0 }
}

#[test]
fn simple_test_test_project_config_creation() {
    let config = ProjectConfig::default_for_project("test-project", "/tmp", created());

    assert_eq!(config.get_project_name(), "test-project");
    assert_eq!(config.get_project_root(), "/tmp");
    assert!(config.get_plugins().is_empty());
}

#[test]
fn simple_test_test_plugin_config_creation() {
    let mut plugin_config = PluginConfig::new("test-plugin");

    assert_eq!(plugin_config.name, "test-plugin");
    assert!(!plugin_config.enabled);
    assert!(plugin_config.get_version().is_none());

    plugin_config.set_version("1.2.3");
    assert_eq!(plugin_config.get_version(), Some("1.2.3"));

    plugin_config.enabled = true;
    assert!(plugin_config.enabled);
}

#[test]
fn test_plugin_source_types() {
    let local_source = PluginSource::local("/path/to/plugin");
    assert_eq!(local_source.get_url(), "/path/to/plugin");
    assert_eq!(local_source.get_type_name(), "local");

    let registry_source = PluginSource::registry("https://registry.example.com");
    assert_eq!(registry_source.get_url(), "https://registry.example.com");
    assert_eq!(registry_source.get_type_name(), "registry");

    let git_source = PluginSource::git("https://github.com/user/repo.git", Some("main"));
    assert_eq!(git_source.get_url(), "https://github.com/user/repo.git");
    assert_eq!(git_source.get_type_name(), "git");
}

#[test]
fn test_plugin_config_settings() {
    let mut plugin_config = PluginConfig::new("test-plugin");

    plugin_config.set_setting("debug", serde_json::Value::Bool(true));
    plugin_config.set_setting("timeout", serde_json::Value::Number(serde_json::Number::from(30)));
    plugin_config.set_setting("name", serde_json::Value::String("test".to_string()));

    assert_eq!(plugin_config.get_setting("debug"), Some(&serde_json::Value::Bool(true)));
    assert_eq!(
        plugin_config.get_setting("timeout"),
        Some(&serde_json::Value::Number(serde_json::Number::from(30)))
    );
    assert_eq!(
        plugin_config.get_setting("name"),
        Some(&serde_json::Value::String("test".to_string()))
    );
    assert_eq!(plugin_config.get_setting("nonexistent"), None);
}

#[test]
fn test_project_config_plugin_management() {
    let mut config = ProjectConfig::default_for_project("test-project", ".", created());

    let mut plugin_config = PluginConfig::new("node");
    plugin_config.enabled = true;
    plugin_config.set_version("18.17.0");
    plugin_config.set_source(PluginSource::registry("https://nodejs.org/dist"));

    config.add_plugin(plugin_config);

    let plugins = config.get_plugins();
    assert!(plugins.contains_key("node"));

    let node_config = plugins.get("node").unwrap();
    assert!(node_config.enabled);
    assert_eq!(node_config.get_version(), Some("18.17.0"));

    config
        .update_plugin_setting(
            "node",
            "registry",
            serde_json::Value::String("https://registry.npmjs.org".to_string()),
        )
        .unwrap();

    let updated_plugins = config.get_plugins();
    let updated_node_config = updated_plugins.get("node").unwrap();
    assert_eq!(
        updated_node_config.get_setting("registry"),
        Some(&serde_json::Value::String("https://registry.npmjs.org".to_string()))
    );
}
