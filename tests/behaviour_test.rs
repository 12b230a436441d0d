use plm::config::{GlobalSettings, PluginSource, PluginSourceType};
use plm::manager::{init_failure, shutdown_warning};
use plm::strmap::StrMap;
use plm::traits::{
    metadata_is_complete, InstallOptions, Plugin, PluginError, PluginMetadata, PluginStatus, ValidationSummary, VersionInfo,
};
use plm::{PluginConfig, PluginManager, ProjectConfig};
use plm::Timestamp;

/// A fixed creation time for configurations built in tests.
fn created() -> Timestamp {
    Timestamp { secs: 1_700_000_000, nanos: 0 }
}

/// An adapter whose metadata and failures are chosen by the test.
struct Adapter {
    name: String,
    version: String,
    fail_init: bool,
    fail_shutdown: bool,
    status: PluginStatus,
}

fn adapter(name: &str, version: &str) -> Adapter {
    Adapter {
        name: name.to_string(),
        version: version.to_string(),
        fail_init: false,
        fail_shutdown: false,
        status: PluginStatus::Inactive,
    }
}

impl Plugin for Adapter {
    fn metadata(&self) -> PluginMetadata {
        let mut m = PluginMetadata::default();
        m.name = self.name.clone();
        m.version = self.version.clone();
        m
    }

    fn status(&self) -> PluginStatus {
        self.status.clone()
    }

    fn initialize(&mut self) -> Result<(), PluginError> {
        if self.fail_init {
            return Err(PluginError::PluginError("boom".to_string()));
        }
        self.status = PluginStatus::Active;
        Ok(())
    }

    fn shutdown(&mut self) -> Result<(), PluginError> {
        if self.fail_shutdown {
            return Err(PluginError::IoError("stuck".to_string()));
        }
        self.status = PluginStatus::Inactive;
        Ok(())
    }

    fn install(&self, version: &str, _options: &InstallOptions) -> Result<String, PluginError> {
        Ok(format!("/opt/{}/{}", self.name, version))
    }

    fn uninstall(&self, _version: &str) -> Result<(), PluginError> {
        Ok(())
    }

    fn list_versions(&self) -> Result<Vec<VersionInfo>, PluginError> {
        Ok(Vec::new())
    }

    fn list_installed(&self) -> Result<Vec<String>, PluginError> {
        Ok(Vec::new())
    }

    fn is_installed(&self, _version: &str) -> Result<bool, PluginError> {
        Ok(false)
    }

    fn get_latest_version(&self) -> Result<VersionInfo, PluginError> {
        Ok(VersionInfo::new(&self.version, "any", "https://example.com"))
    }

    fn update(&self, version: Option<&str>) -> Result<String, PluginError> {
        Ok(version.unwrap_or("latest").to_string())
    }

    fn switch_version(&self, _version: &str) -> Result<(), PluginError> {
        Ok(())
    }

    fn verify_installation(&self, _version: &str) -> Result<bool, PluginError> {
        Ok(true)
    }

    fn cleanup(&self) -> Result<(), PluginError> {
        Ok(())
    }

    fn get_config(&self) -> Result<StrMap<String>, PluginError> {
        Ok(StrMap::new())
    }

    fn set_config(&self, _config: StrMap<String>) -> Result<(), PluginError> {
        Ok(())
    }

    fn get_config_value(&self, _key: &str) -> Result<Option<String>, PluginError> {
        Ok(None)
    }

    fn set_config_value(&self, _key: &str, _value: &str) -> Result<(), PluginError> {
        Ok(())
    }

    fn execute_command(&self, command: &str, _args: &[&str]) -> Result<String, PluginError> {
        Ok(command.to_string())
    }

    fn get_help(&self) -> String {
        String::new()
    }

    fn supports_feature(&self, _feature: &str) -> bool {
        false
    }
}

fn manager() -> PluginManager<Adapter> {
    PluginManager::from_project_config(ProjectConfig::default_for_project("p", ".", created())).unwrap()
}

fn sorted(mut v: Vec<String>) -> Vec<String> {
    v.sort();
    v
}

#[test]
fn go_and_rust_scenario() {
    let mut m = manager();
    m.register_plugin_for_test("go".to_string(), adapter("go", "1.0.0")).unwrap();
    m.register_plugin_for_test("rust".to_string(), adapter("rust", "2.0.0")).unwrap();
    m.initialize().unwrap();
    assert_eq!(sorted(m.list_plugins()), vec!["go".to_string(), "rust".to_string()]);
    let s = m.validate_all_plugins().unwrap();
    assert_eq!(s.valid_plugins, 2);
    assert_eq!(s.invalid_plugins, 0);
    assert!(s.is_all_valid());
    assert_eq!(s.total_plugins(), 2);
}

#[test]
fn default_project_scenario() {
    let c = ProjectConfig::default_for_project("demo", "/tmp", created());
    assert_eq!(c.get_project_name(), "demo");
    assert_eq!(c.get_project_root(), "/tmp");
    assert!(c.get_plugins().is_empty());
    assert_eq!(c.sources.len(), 1);
    assert_eq!(c.sources[0].source_type, PluginSourceType::Registry);
    assert_eq!(c.sources[0].get_type_name(), "registry");
    assert_eq!(c.sources[0].get_url(), "https://registry.plm.dev");
    assert_eq!(c.project.version, "1.0.0");
    assert!(c.project.description.is_none());
    assert_eq!(c.project.created_at, created());
    assert_eq!(c.project.updated_at, created());
    assert!(c.validate().is_ok());
}

#[test]
fn default_global_settings() {
    let s = GlobalSettings::default();
    assert_eq!(s.cache_dir, "~/.plm/cache");
    assert_eq!(s.registry_url, "https://registry.plm.dev");
    assert!(s.auto_update && s.verify_checksums && s.auto_discovery);
    assert!(s.validate_on_install && s.enable_hooks);
    assert_eq!(s.parallel_downloads, 4);
    assert_eq!(s.plugin_dir, "~/.plm/plugins");
    assert_eq!(s.log_level, "info");
    assert_eq!(s.download_timeout, 300);
}

#[test]
fn lookup_returns_the_registered_adapter() {
    let mut m = manager();
    m.register_plugin_for_test("node".to_string(), adapter("node", "18.0.0")).unwrap();
    let first = m.get_plugin("node").unwrap().metadata();
    let second = m.get_plugin("node").unwrap().metadata();
    assert_eq!(first.name, "node");
    assert_eq!(first.name, second.name);
    assert_eq!(first.version, second.version);
}

#[test]
fn register_replaces_the_adapter_with_the_same_name() {
    let mut m = manager();
    m.register_plugin_for_test("node".to_string(), adapter("node", "1.0.0")).unwrap();
    m.register_plugin_for_test("node".to_string(), adapter("node", "2.0.0")).unwrap();
    assert_eq!(m.list_plugins().len(), 1);
    assert_eq!(m.discover_plugins().unwrap(), 1);
    assert_eq!(m.get_plugin("node").unwrap().metadata().version, "2.0.0");
}

#[test]
fn initialize_then_shutdown_empties_the_registry() {
    let mut m = manager();
    m.register_plugin_for_test("a".to_string(), adapter("a", "1")).unwrap();
    m.register_plugin_for_test("b".to_string(), adapter("b", "1")).unwrap();
    assert!(m.initialize().is_ok());
    assert_eq!(m.get_plugin("a").unwrap().status(), PluginStatus::Active);
    let warnings = m.shutdown().unwrap();
    assert!(warnings.is_empty());
    assert!(m.list_plugins().is_empty());
    assert_eq!(m.discover_plugins().unwrap(), 0);
}

#[test]
fn initialize_on_empty_registry_succeeds() {
    let mut m = manager();
    assert!(m.initialize().is_ok());
}

#[test]
fn initialize_stops_at_the_first_failure() {
    let mut m = manager();
    let mut bad = adapter("bad", "1");
    bad.fail_init = true;
    m.register_plugin_for_test("good".to_string(), adapter("good", "1")).unwrap();
    m.register_plugin_for_test("bad".to_string(), bad).unwrap();
    m.register_plugin_for_test("later".to_string(), adapter("later", "1")).unwrap();
    let err = m.initialize().unwrap_err();
    assert_eq!(
        err,
        PluginError::PluginError("plugin bad failed to initialize: Plugin error: boom".to_string())
    );
    assert_eq!(m.get_plugin("good").unwrap().status(), PluginStatus::Active);
    assert_eq!(m.get_plugin("later").unwrap().status(), PluginStatus::Inactive);
    assert_eq!(m.list_plugins().len(), 3);
}

#[test]
fn shutdown_continues_past_failures() {
    let mut m = manager();
    let mut stuck = adapter("stuck", "1");
    stuck.fail_shutdown = true;
    m.register_plugin_for_test("stuck".to_string(), stuck).unwrap();
    m.register_plugin_for_test("fine".to_string(), adapter("fine", "1")).unwrap();
    let warnings = m.shutdown().unwrap();
    assert_eq!(warnings, vec!["plugin stuck failed to shut down: IO error: stuck".to_string()]);
    assert!(m.list_plugins().is_empty());
}

#[test]
fn failure_messages() {
    let e = PluginError::NotFound("x".to_string());
    assert_eq!(
        init_failure("n", &e),
        PluginError::PluginError("plugin n failed to initialize: Plugin not found: x".to_string())
    );
    assert_eq!(shutdown_warning("n", &e), "plugin n failed to shut down: Plugin not found: x");
}

#[test]
fn error_descriptions() {
    let m = "m".to_string();
    assert_eq!(PluginError::InstallationError(m.clone()).describe(), "Installation failed: m");
    assert_eq!(PluginError::ConfigError(m.clone()).describe(), "Configuration error: m");
    assert_eq!(PluginError::NetworkError(m.clone()).describe(), "Network error: m");
    assert_eq!(PluginError::IoError(m.clone()).describe(), "IO error: m");
    assert_eq!(PluginError::ValidationError(m.clone()).describe(), "Validation error: m");
    assert_eq!(PluginError::NotFound(m.clone()).describe(), "Plugin not found: m");
    assert_eq!(PluginError::PermissionDenied(m.clone()).describe(), "Permission denied: m");
    assert_eq!(PluginError::PluginError(m).describe(), "Plugin error: m");
}

#[test]
fn validation_reports_incomplete_metadata() {
    let mut m = manager();
    m.register_plugin_for_test("ok".to_string(), adapter("ok", "1.0")).unwrap();
    m.register_plugin_for_test("noversion".to_string(), adapter("noversion", "")).unwrap();
    m.register_plugin_for_test("noname".to_string(), adapter("", "1.0")).unwrap();
    let s = m.validate_all_plugins().unwrap();
    assert_eq!(s.valid_plugins, 1);
    assert_eq!(s.invalid_plugins, 2);
    assert!(!s.is_all_valid());
    assert_eq!(
        s.errors,
        vec![
            "plugin noversion has incomplete metadata".to_string(),
            "plugin noname has incomplete metadata".to_string()
        ]
    );
}

#[test]
fn validation_of_empty_registry() {
    let m = manager();
    let s = m.validate_all_plugins().unwrap();
    assert_eq!(s.valid_plugins, 0);
    assert_eq!(s.invalid_plugins, 0);
    assert!(s.errors.is_empty());
}

#[test]
fn missing_name_is_not_found() {
    let mut m = manager();
    m.register_plugin_for_test("present".to_string(), adapter("present", "1")).unwrap();
    let options = InstallOptions::new();
    assert_eq!(
        m.install_plugin("missing-name", None, &options),
        Err(PluginError::NotFound("missing-name".to_string()))
    );
    assert_eq!(
        m.uninstall_plugin("missing-name", "1"),
        Err(PluginError::NotFound("missing-name".to_string()))
    );
    assert!(matches!(m.get_plugin("missing-name"), Err(PluginError::NotFound(n)) if n == "missing-name"));
}

#[test]
fn install_defaults_to_latest() {
    let mut m = manager();
    m.register_plugin_for_test("go".to_string(), adapter("go", "1")).unwrap();
    let options = InstallOptions::new();
    assert_eq!(m.install_plugin("go", None, &options).unwrap(), "/opt/go/latest");
    assert_eq!(m.install_plugin("go", Some("1.22"), &options).unwrap(), "/opt/go/1.22");
}

#[test]
fn setting_twice_keeps_one_entry() {
    let mut p = PluginConfig::new("x");
    p.set_setting("k", serde_json::Value::Bool(true));
    p.set_setting("k", serde_json::Value::Bool(true));
    assert_eq!(p.get_setting("k"), Some(&serde_json::Value::Bool(true)));
    assert_eq!(p.get_all_settings().len(), 1);
    assert_eq!(p.get_all_settings().keys(), vec!["k".to_string()]);
}

#[test]
fn setting_replaced_and_removed() {
    let mut p = PluginConfig::new("x");
    p.set_setting("a", serde_json::Value::Bool(true));
    p.set_setting("b", serde_json::Value::String("s".to_string()));
    p.set_setting("a", serde_json::Value::Bool(false));
    assert_eq!(p.get_setting("a"), Some(&serde_json::Value::Bool(false)));
    assert_eq!(p.remove_setting("a"), Some(serde_json::Value::Bool(false)));
    assert_eq!(p.remove_setting("a"), None);
    assert_eq!(p.get_all_settings().keys(), vec!["b".to_string()]);
    p.clear_settings();
    assert!(p.get_all_settings().is_empty());
}

#[test]
fn config_validation_errors() {
    let mut c = ProjectConfig::default_for_project("", ".", created());
    assert_eq!(
        c.validate(),
        Err(PluginError::ConfigError("Project name cannot be empty".to_string()))
    );
    c.project.name = "p".to_string();
    c.project.root_path = String::new();
    assert_eq!(
        c.validate(),
        Err(PluginError::ConfigError("Project root cannot be empty".to_string()))
    );
    c.project.root_path = ".".to_string();
    c.add_plugin(PluginConfig::new("node"));
    c.get_plugin_mut("node").unwrap().name = "deno".to_string();
    assert_eq!(
        c.validate(),
        Err(PluginError::ConfigError(
            "Plugin name mismatch: key 'node' vs config 'deno'".to_string()
        ))
    );
    c.remove_plugin("node");
    c.sources.push(PluginSource::http(""));
    assert_eq!(
        c.validate(),
        Err(PluginError::ConfigError("Plugin source URL cannot be empty".to_string()))
    );
}

#[test]
fn enable_disable_and_update() {
    let mut c = ProjectConfig::default_for_project("p", ".", created());
    c.add_plugin(PluginConfig::new("node"));
    assert!(!c.get_plugin("node").unwrap().enabled);
    c.enable_plugin("node").unwrap();
    assert!(c.get_plugin("node").unwrap().enabled);
    c.disable_plugin("node").unwrap();
    assert!(!c.get_plugin("node").unwrap().enabled);
    assert_eq!(c.enable_plugin("ghost"), Err("Plugin 'ghost' not found".to_string()));
    assert_eq!(c.disable_plugin("ghost"), Err("Plugin 'ghost' not found".to_string()));
    assert_eq!(
        c.update_plugin_setting("ghost", "k", serde_json::Value::Null),
        Err("Plugin 'ghost' not found".to_string())
    );
    let removed = c.remove_plugin("node").unwrap();
    assert_eq!(removed.name, "node");
    assert!(c.get_plugin("node").is_none());
    assert!(c.remove_plugin("node").is_none());
}

#[test]
fn manager_config_accessors() {
    let mut m = manager();
    let mut pc = PluginConfig::new("go");
    pc.set_version("1.22");
    m.add_plugin_config(pc);
    assert_eq!(m.get_plugin_config("go").unwrap().get_version(), Some("1.22"));
    m.remove_plugin_config("go");
    assert!(m.get_plugin_config("go").is_none());
    m.update_config(ProjectConfig::default_for_project("other", "/srv", created()));
    assert_eq!(m.get_config().get_project_name(), "other");
    let fresh = PluginManager::<Adapter>::new(created()).unwrap();
    assert_eq!(fresh.get_config().get_project_name(), "default");
    assert_eq!(fresh.get_config().get_project_root(), ".");
}

#[test]
fn plugin_sources() {
    let g = PluginSource::git("https://x/r.git", None);
    assert!(g.branch.is_none());
    let g = PluginSource::git("https://x/r.git", Some("dev"));
    assert_eq!(g.branch.as_deref(), Some("dev"));
    assert_eq!(PluginSource::git_simple("u").get_type_name(), "git");
    assert_eq!(PluginSource::http("h").get_type_name(), "http");
    let b = PluginSource { source_type: PluginSourceType::Builtin, url: "b".to_string(), branch: None, tag: None, token: None };
    assert_eq!(b.get_type_name(), "builtin");
}

#[test]
fn metadata_defaults() {
    let m = PluginMetadata::default();
    assert_eq!(m.name, "");
    assert_eq!(m.version, "0.1.0");
    assert_eq!(m.supported_platforms, vec!["linux".to_string(), "macos".to_string(), "windows".to_string()]);
    assert!(m.tags.is_empty() && m.dependencies.is_empty());
    assert!(m.homepage.is_none() && m.min_plm_version.is_none());
}

#[test]
fn version_info_builders() {
    let v = VersionInfo::new("1.0", "linux", "https://d/1.0")
        .with_checksum("abc")
        .with_release_date("2024-01-01")
        .as_prerelease();
    assert_eq!(v.version, "1.0");
    assert_eq!(v.platform, "linux");
    assert_eq!(v.download_url, "https://d/1.0");
    assert_eq!(v.checksum.as_deref(), Some("abc"));
    assert_eq!(v.release_date.as_deref(), Some("2024-01-01"));
    assert!(v.prerelease);
    assert!(!VersionInfo::new("1", "p", "u").prerelease);
}

#[test]
fn install_option_builders() {
    let o = InstallOptions::new();
    assert!(!o.force && !o.debug && !o.yes && !o.quiet && o.install_dir.is_none());
    let o = o.force().debug().yes().quiet().install_dir("/opt").env_var("A", "1").env_var("A", "2");
    assert!(o.force && o.debug && o.yes && o.quiet);
    assert_eq!(o.install_dir.as_deref(), Some("/opt"));
    assert_eq!(o.env_vars.get("A"), Some(&"2".to_string()));
    assert_eq!(o.env_vars.len(), 1);
}

#[test]
fn validation_summary_totals() {
    let s = ValidationSummary { valid_plugins: 3, invalid_plugins: 2, errors: Vec::new() };
    assert_eq!(s.total_plugins(), 5);
    assert!(!s.is_all_valid());
}

#[test]
fn strmap_clone_keeps_entries() {
    let mut m: StrMap<u32> = StrMap::new();
    m.insert("b".to_string(), 2);
    m.insert("a".to_string(), 1);
    let c = m.clone();
    assert_eq!(c.keys(), vec!["b".to_string(), "a".to_string()]);
    assert_eq!(c.get("a"), Some(&1));
    assert_eq!(m.remove("b"), Some(2));
    assert_eq!(c.len(), 2);
    assert_eq!(m.len(), 1);
}

#[test]
fn default_manager() {
    let m: PluginManager<Adapter> = plm::init_default(created()).unwrap();
    assert!(m.list_plugins().is_empty());
    assert_eq!(m.get_config().get_project_name(), "default");
}

#[test]
fn metadata_completeness() {
    let mut m = PluginMetadata::default();
    assert!(!metadata_is_complete(&m));
    m.name = "go".to_string();
    assert!(metadata_is_complete(&m));
    m.version = String::new();
    assert!(!metadata_is_complete(&m));
}
