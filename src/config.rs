//! The configuration model: a project's identity, its global settings, the
//! desired state of each adapter, and the sources adapters come from.
use crate::strmap::StrMap;
use crate::traits::PluginError;
use vstd::prelude::*;

verus! {

/// A point in time: whole seconds since the Unix epoch (UTC) and the
/// nanoseconds past that second.
#[derive(Clone, Copy, Debug, PartialEq, Eq, Structural)]
pub struct Timestamp {
    pub secs: i64,
    pub nanos: u32,
}

/// The project's identity and timestamps.
#[derive(Clone, Debug)]
pub struct ProjectInfo {
    pub name: String,
    pub version: String,
    pub description: Option<String>,
    pub root_path: String,
    pub created_at: Timestamp,
    pub updated_at: Timestamp,
}

/// Process-wide defaults.
#[derive(Clone, Debug)]
pub struct GlobalSettings {
    pub cache_dir: String,
    pub registry_url: String,
    pub auto_update: bool,
    pub parallel_downloads: u32,
    pub verify_checksums: bool,
    pub auto_discovery: bool,
    pub validate_on_install: bool,
    pub enable_hooks: bool,
    pub plugin_dir: String,
    pub log_level: String,
    pub download_timeout: u64,
}

/// The address of the default plugin registry.
pub open spec fn default_registry_url() -> Seq<char> {
    "https://registry.plm.dev"@
}

/// True when `s` holds the default global settings.
pub open spec fn is_default_settings(s: GlobalSettings) -> bool {
    &&& s.cache_dir@ == "~/.plm/cache"@
    &&& s.registry_url@ == default_registry_url()
    &&& s.auto_update
    &&& s.parallel_downloads == 4
    &&& s.verify_checksums
    &&& s.auto_discovery
    &&& s.validate_on_install
    &&& s.enable_hooks
    &&& s.plugin_dir@ == "~/.plm/plugins"@
    &&& s.log_level@ == "info"@
    &&& s.download_timeout == 300
}

impl Default for GlobalSettings {
    /// The default settings, as `is_default_settings` describes them.
    fn default() -> (r: Self)
        ensures
            is_default_settings(r),
    {
        GlobalSettings {
            cache_dir: "~/.plm/cache".to_owned(),
            registry_url: "https://registry.plm.dev".to_owned(),
            auto_update: true,
            parallel_downloads: 4,
            verify_checksums: true,
            auto_discovery: true,
            validate_on_install: true,
            enable_hooks: true,
            plugin_dir: "~/.plm/plugins".to_owned(),
            log_level: "info".to_owned(),
            download_timeout: 300,
        }
    }
}

/// Where an adapter's artifacts come from.
#[derive(Clone, Copy, Debug, PartialEq, Eq, Structural)]
pub enum PluginSourceType {
    Builtin,
    Local,
    Git,
    Http,
    Registry,
}

/// The lower-case name of a source type.
pub open spec fn source_type_name(t: PluginSourceType) -> Seq<char> {
    match t {
        PluginSourceType::Local => "local"@,
        PluginSourceType::Registry => "registry"@,
        PluginSourceType::Git => "git"@,
        PluginSourceType::Http => "http"@,
        PluginSourceType::Builtin => "builtin"@,
    }
}

/// The provenance of an adapter: its kind, a URL or path, and optional
/// branch, tag and access token.
#[derive(Clone, Debug)]
pub struct PluginSource {
    pub source_type: PluginSourceType,
    pub url: String,
    pub branch: Option<String>,
    pub tag: Option<String>,
    pub token: Option<String>,
}

/// True when `s` is a source of kind `t` at `url`, with no branch, tag or token.
pub open spec fn is_plain_source(s: PluginSource, t: PluginSourceType, url: Seq<char>) -> bool {
    s.source_type == t && s.url@ == url && s.branch is None && s.tag is None && s.token is None
}

impl PluginSource {
    /// A source of kind `t` at `url`, with no branch, tag or token.
    fn plain(t: PluginSourceType, url: &str) -> (r: Self)
        ensures
            is_plain_source(r, t, url@),
    {
        PluginSource { source_type: t, url: url.to_owned(), branch: None, tag: None, token: None }
    }

    /// A source on the local filesystem.
    pub fn local(path: &str) -> (r: Self)
        ensures
            is_plain_source(r, PluginSourceType::Local, path@),
    {
        Self::plain(PluginSourceType::Local, path)
    }

    /// A plugin registry.
    pub fn registry(url: &str) -> (r: Self)
        ensures
            is_plain_source(r, PluginSourceType::Registry, url@),
    {
        Self::plain(PluginSourceType::Registry, url)
    }

    /// A git repository, optionally at a branch.
    pub fn git(url: &str, branch: Option<&str>) -> (r: Self)
        ensures
            r.source_type == PluginSourceType::Git,
            r.url@ == url@,
            match branch {
                Some(b) => r.branch matches Some(rb) && rb@ == b@,
                None => r.branch is None,
            },
            r.tag is None,
            r.token is None,
    {
        let branch = match branch {
            Some(b) => Some(b.to_owned()),
            None => None,
        };
        PluginSource { source_type: PluginSourceType::Git, url: url.to_owned(), branch, tag: None, token: None }
    }

    /// A git repository at its default branch.
    pub fn git_simple(url: &str) -> (r: Self)
        ensures
            is_plain_source(r, PluginSourceType::Git, url@),
    {
        Self::plain(PluginSourceType::Git, url)
    }

    /// An HTTP endpoint.
    pub fn http(url: &str) -> (r: Self)
        ensures
            is_plain_source(r, PluginSourceType::Http, url@),
    {
        Self::plain(PluginSourceType::Http, url)
    }

    /// The source's URL or path.
    pub fn get_url(&self) -> (r: &str)
        ensures
            r@ == self.url@,
    {
        self.url.as_str()
    }

    /// The lower-case name of the source's kind.
    pub fn get_type_name(&self) -> (r: &'static str)
        ensures
            r@ == source_type_name(self.source_type),
    {
        match self.source_type {
            PluginSourceType::Local => "local",
            PluginSourceType::Registry => "registry",
            PluginSourceType::Git => "git",
            PluginSourceType::Http => "http",
            PluginSourceType::Builtin => "builtin",
        }
    }
}

/// One adapter's desired state.
#[derive(Clone, Debug)]
pub struct PluginConfig {
    pub name: String,
    pub enabled: bool,
    pub version: Option<String>,
    pub source: Option<PluginSource>,
    pub settings: StrMap<serde_json::Value>,
    pub auto_update: bool,
}

/// What storing a setting does: the value is stored under the key, a new
/// key adds one entry and a stored one adds none, and nothing else changes.
pub open spec fn setting_stored(
    before: PluginConfig,
    after: PluginConfig,
    key: Seq<char>,
    value: serde_json::Value,
) -> bool {
    &&& after.settings@ == before.settings@.insert(key, value)
    &&& after.settings.entries().len() == before.settings.entries().len() + if before.settings@.contains_key(
        key,
    ) {
        0int
    } else {
        1int
    }
    &&& after == (PluginConfig { settings: after.settings, ..before })
}

impl PluginConfig {
    /// A disabled adapter with no version pin, no source and no settings.
    pub fn new(name: &str) -> (r: Self)
        ensures
            r.name@ == name@,
            !r.enabled,
            r.version is None,
            r.source is None,
            r.settings@ == Map::<Seq<char>, serde_json::Value>::empty(),
            r.settings.entries().len() == 0,
            !r.auto_update,
    {
        PluginConfig {
            name: name.to_owned(),
            enabled: false,
            version: None,
            source: None,
            settings: StrMap::new(),
            auto_update: false,
        }
    }

    /// The pinned version, if any.
    pub fn get_version(&self) -> (r: Option<&str>)
        ensures
            r is Some == self.version is Some,
            r matches Some(v) ==> self.version matches Some(sv) && v@ == sv@,
    {
        match &self.version {
            Some(v) => Some(v.as_str()),
            None => None,
        }
    }

    /// Pins the version.
    pub fn set_version(&mut self, version: &str)
        ensures
            final(self).version matches Some(v) && v@ == version@,
            *final(self) == (PluginConfig { version: final(self).version, ..*old(self) }),
    {
        self.version = Some(version.to_owned());
    }

    /// Sets where the adapter comes from.
    pub fn set_source(&mut self, source: PluginSource)
        ensures
            *final(self) == (PluginConfig { source: Some(source), ..*old(self) }),
    {
        self.source = Some(source);
    }

    /// Stores `value` under `key`, replacing any value that was there.
    pub fn set_setting(&mut self, key: &str, value: serde_json::Value)
        ensures
            setting_stored(*old(self), *final(self), key@, value),
    {
        self.settings.insert(key.to_owned(), value);
    }

    /// The value stored under `key`.
    pub fn get_setting(&self, key: &str) -> (r: Option<&serde_json::Value>)
        ensures
            r is Some == self.settings@.contains_key(key@),
            r matches Some(v) ==> *v == self.settings@[key@],
    {
        self.settings.get(key)
    }

    /// Removes `key` and returns the value that was stored under it.
    pub fn remove_setting(&mut self, key: &str) -> (r: Option<serde_json::Value>)
        ensures
            final(self).settings@ == old(self).settings@.remove(key@),
            old(self).settings@.contains_key(key@) ==> r == Some(old(self).settings@[key@]),
            !old(self).settings@.contains_key(key@) ==> r is None,
            *final(self) == (PluginConfig { settings: final(self).settings, ..*old(self) }),
    {
        self.settings.remove(key)
    }

    /// Removes every setting.
    pub fn clear_settings(&mut self)
        ensures
            final(self).settings@ == Map::<Seq<char>, serde_json::Value>::empty(),
            *final(self) == (PluginConfig { settings: final(self).settings, ..*old(self) }),
    {
        self.settings.clear();
    }

    /// All settings.
    pub fn get_all_settings(&self) -> (r: &StrMap<serde_json::Value>)
        ensures
            *r == self.settings,
    {
        &self.settings
    }
}

/// A project's desired adapter state: identity, global settings, the
/// configuration of each adapter keyed by adapter name, and the sources
/// adapters may be fetched from.
#[derive(Clone, Debug)]
pub struct ProjectConfig {
    pub project: ProjectInfo,
    pub global_settings: GlobalSettings,
    pub plugins: StrMap<PluginConfig>,
    pub sources: Vec<PluginSource>,
}

/// The message for an adapter name that is not configured.
pub open spec fn plugin_not_found_message(name: Seq<char>) -> Seq<char> {
    "Plugin '"@ + name + "' not found"@
}

/// The message for an entry whose key differs from its configuration's name.
pub open spec fn mismatch_message(key: Seq<char>, name: Seq<char>) -> Seq<char> {
    "Plugin name mismatch: key '"@ + key + "' vs config '"@ + name + "'"@
}

/// True when an entry's key differs from the name in its configuration.
pub open spec fn entry_mismatched(e: (Seq<char>, PluginConfig)) -> bool {
    e.1.name@ != e.0
}

/// The position of the first entry whose key differs from its configuration's name.
pub open spec fn first_mismatch(es: Seq<(Seq<char>, PluginConfig)>) -> int {
    choose|i: int|
        0 <= i < es.len() && entry_mismatched(es[i]) && forall|j: int|
            0 <= j < i ==> !entry_mismatched(#[trigger] es[j])
}

/// What is wrong with a configuration, checked in this order: an empty
/// project name, an empty project root, an adapter entry whose key differs
/// from its name (the first in stored order), a source with an empty URL.
/// `None` when nothing is.
pub open spec fn config_problem(c: ProjectConfig) -> Option<Seq<char>> {
    let es = c.plugins.entries();
    if c.project.name@.len() == 0 {
        Some("Project name cannot be empty"@)
    } else if c.project.root_path@.len() == 0 {
        Some("Project root cannot be empty"@)
    } else if exists|i: int| 0 <= i < es.len() && entry_mismatched(#[trigger] es[i]) {
        Some(mismatch_message(es[first_mismatch(es)].0, es[first_mismatch(es)].1.name@))
    } else if exists|i: int| 0 <= i < c.sources@.len() && (#[trigger] c.sources@[i]).url@.len() == 0 {
        Some("Plugin source URL cannot be empty"@)
    } else {
        None
    }
}

/// `p` with its `enabled` flag set to `on`.
pub open spec fn with_enabled(p: PluginConfig, on: bool) -> PluginConfig {
    PluginConfig { enabled: on, ..p }
}

impl ProjectConfig {
    /// A fresh configuration for a project: version "1.0.0", creation and
    /// update time both `now`, default settings, no adapters, and the
    /// default registry as the only source.
    pub fn default_for_project(name: &str, root_path: &str, now: Timestamp) -> (r: Self)
        ensures
            r.project.name@ == name@,
            r.project.root_path@ == root_path@,
            r.project.version@ == "1.0.0"@,
            r.project.description is None,
            r.project.created_at == now,
            r.project.updated_at == now,
            is_default_settings(r.global_settings),
            r.plugins@ == Map::<Seq<char>, PluginConfig>::empty(),
            r.plugins.entries().len() == 0,
            r.sources@.len() == 1,
            is_plain_source(r.sources@[0], PluginSourceType::Registry, default_registry_url()),
    {
        let mut sources: Vec<PluginSource> = Vec::new();
        sources.push(PluginSource::registry("https://registry.plm.dev"));
        ProjectConfig {
            project: ProjectInfo {
                name: name.to_owned(),
                version: "1.0.0".to_owned(),
                description: None,
                root_path: root_path.to_owned(),
                created_at: now,
                updated_at: now,
            },
            global_settings: GlobalSettings::default(),
            plugins: StrMap::new(),
            sources,
        }
    }

    /// Checks the configuration; the error names the first problem that
    /// `config_problem` finds.
    pub fn validate(&self) -> (r: Result<(), PluginError>)
        ensures
            r is Ok <==> config_problem(*self) is None,
            r is Err ==> (r matches Err(PluginError::ConfigError(m)) && config_problem(*self) == Some(m@)),
    {
        if self.project.name.as_str().is_empty() {
            return Err(PluginError::ConfigError("Project name cannot be empty".to_owned()));
        }
        if self.project.root_path.as_str().is_empty() {
            return Err(PluginError::ConfigError("Project root cannot be empty".to_owned()));
        }
        let ghost es = self.plugins.entries();
        let n = self.plugins.len();
        let mut i: usize = 0;
        while i < n
            invariant
                n == es.len(),
                es == self.plugins.entries(),
                i <= n,
                self.project.name@.len() != 0,
                self.project.root_path@.len() != 0,
                forall|j: int| 0 <= j < i ==> !entry_mismatched(#[trigger] es[j]),
            decreases n - i,
        {
            let key = self.plugins.key_at(i);
            let p = self.plugins.value_at(i);
            if p.name != *key {
                proof {
                    assert(entry_mismatched(es[i as int]));
                    let f = first_mismatch(es);
                    assert(0 <= f < es.len() && entry_mismatched(es[f]) && forall|j: int|
                        0 <= j < f ==> !entry_mismatched(#[trigger] es[j]));
                    if f < i {
                        assert(!entry_mismatched(es[f]));
                    }
                    if f > i {
                        assert(!entry_mismatched(es[i as int]));
                    }
                    assert(f == i);
                    assert(self.plugins.entries() == es);
                }
                let msg = "Plugin name mismatch: key '".to_owned().concat(key.as_str()).concat(
                    "' vs config '",
                ).concat(p.name.as_str()).concat("'");
                assert(msg@ == mismatch_message(es[i as int].0, es[i as int].1.name@));
                return Err(PluginError::ConfigError(msg));
            }
            i += 1;
        }
        let mut k: usize = 0;
        while k < self.sources.len()
            invariant
                k <= self.sources@.len(),
                es == self.plugins.entries(),
                forall|j: int| 0 <= j < es.len() ==> !entry_mismatched(#[trigger] es[j]),
                self.project.name@.len() != 0,
                self.project.root_path@.len() != 0,
                forall|j: int| 0 <= j < k ==> (#[trigger] self.sources@[j]).url@.len() != 0,
            decreases self.sources@.len() - k,
        {
            if self.sources[k].url.as_str().is_empty() {
                proof {
                    assert(!exists|j: int| 0 <= j < es.len() && entry_mismatched(#[trigger] es[j]));
                    assert(self.sources@[k as int].url@.len() == 0);
                }
                return Err(PluginError::ConfigError("Plugin source URL cannot be empty".to_owned()));
            }
            k += 1;
        }
        Ok(())
    }

    /// Stores an adapter's configuration under its name, replacing any
    /// configuration that was there.
    pub fn add_plugin(&mut self, plugin: PluginConfig)
        ensures
            final(self).plugins@ == old(self).plugins@.insert(plugin.name@, plugin),
            *final(self) == (ProjectConfig { plugins: final(self).plugins, ..*old(self) }),
    {
        let key = plugin.name.clone();
        self.plugins.insert(key, plugin);
    }

    /// The configuration of the named adapter.
    pub fn get_plugin(&self, plugin_name: &str) -> (r: Option<&PluginConfig>)
        ensures
            r is Some == self.plugins@.contains_key(plugin_name@),
            r matches Some(p) ==> *p == self.plugins@[plugin_name@],
    {
        self.plugins.get(plugin_name)
    }

    /// The configuration of the named adapter, for changing it in place.
    pub fn get_plugin_mut(&mut self, plugin_name: &str) -> (r: Option<&mut PluginConfig>)
        ensures
            r is Some == old(self).plugins@.contains_key(plugin_name@),
            r matches Some(p) ==> *p == old(self).plugins@[plugin_name@]
                && final(self).plugins@ == old(self).plugins@.insert(plugin_name@, *final(p)),
            r is None ==> *final(self) == *old(self),
            *final(self) == (ProjectConfig { plugins: final(self).plugins, ..*old(self) }),
    {
        match self.plugins.find(plugin_name) {
            Some(i) => Some(self.plugins.value_mut_at(i)),
            None => None,
        }
    }

    /// Every adapter's configuration.
    pub fn get_plugins(&self) -> (r: &StrMap<PluginConfig>)
        ensures
            *r == self.plugins,
    {
        &self.plugins
    }

    /// The project's name.
    pub fn get_project_name(&self) -> (r: &str)
        ensures
            r@ == self.project.name@,
    {
        self.project.name.as_str()
    }

    /// The project's root path.
    pub fn get_project_root(&self) -> (r: &str)
        ensures
            r@ == self.project.root_path@,
    {
        self.project.root_path.as_str()
    }

    /// The error for an adapter name that is not configured.
    fn not_found(plugin_name: &str) -> (r: String)
        ensures
            r@ == plugin_not_found_message(plugin_name@),
    {
        "Plugin '".to_owned().concat(plugin_name).concat("' not found")
    }

    /// Stores a setting of the named adapter.
    pub fn update_plugin_setting(&mut self, plugin_name: &str, key: &str, value: serde_json::Value) -> (r:
        Result<(), String>)
        ensures
            r is Ok == old(self).plugins@.contains_key(plugin_name@),
            r is Ok ==> final(self).plugins@.contains_key(plugin_name@) && final(self).plugins@
                == old(self).plugins@.insert(
                plugin_name@,
                (PluginConfig {
                    settings: final(self).plugins@[plugin_name@].settings,
                    ..old(self).plugins@[plugin_name@]
                }),
            ) && final(self).plugins@[plugin_name@].settings@ == old(
                self,
            ).plugins@[plugin_name@].settings@.insert(key@, value),
            r matches Err(m) ==> m@ == plugin_not_found_message(plugin_name@) && *final(self)
                == *old(self),
            *final(self) == (ProjectConfig { plugins: final(self).plugins, ..*old(self) }),
    {
        match self.plugins.find(plugin_name) {
            Some(i) => {
                let p = self.plugins.value_mut_at(i);
                p.set_setting(key, value);
                Ok(())
            },
            None => Err(Self::not_found(plugin_name)),
        }
    }

    /// Removes the named adapter's configuration and returns it.
    pub fn remove_plugin(&mut self, plugin_name: &str) -> (r: Option<PluginConfig>)
        ensures
            final(self).plugins@ == old(self).plugins@.remove(plugin_name@),
            old(self).plugins@.contains_key(plugin_name@) ==> r == Some(old(self).plugins@[plugin_name@]),
            !old(self).plugins@.contains_key(plugin_name@) ==> r is None,
            *final(self) == (ProjectConfig { plugins: final(self).plugins, ..*old(self) }),
    {
        self.plugins.remove(plugin_name)
    }

    /// Sets the named adapter's `enabled` flag.
    fn set_enabled(&mut self, plugin_name: &str, on: bool) -> (r: Result<(), String>)
        ensures
            r is Ok == old(self).plugins@.contains_key(plugin_name@),
            r is Ok ==> final(self).plugins@ == old(self).plugins@.insert(
                plugin_name@,
                with_enabled(old(self).plugins@[plugin_name@], on),
            ),
            r matches Err(m) ==> m@ == plugin_not_found_message(plugin_name@) && *final(self)
                == *old(self),
            *final(self) == (ProjectConfig { plugins: final(self).plugins, ..*old(self) }),
    {
        match self.plugins.find(plugin_name) {
            Some(i) => {
                let p = self.plugins.value_mut_at(i);
                p.enabled = on;
                Ok(())
            },
            None => Err(Self::not_found(plugin_name)),
        }
    }

    /// Enables the named adapter.
    pub fn enable_plugin(&mut self, plugin_name: &str) -> (r: Result<(), String>)
        ensures
            r is Ok == old(self).plugins@.contains_key(plugin_name@),
            r is Ok ==> final(self).plugins@ == old(self).plugins@.insert(
                plugin_name@,
                with_enabled(old(self).plugins@[plugin_name@], true),
            ),
            r matches Err(m) ==> m@ == plugin_not_found_message(plugin_name@) && *final(self)
                == *old(self),
            *final(self) == (ProjectConfig { plugins: final(self).plugins, ..*old(self) }),
    {
        self.set_enabled(plugin_name, true)
    }

    /// Disables the named adapter.
    pub fn disable_plugin(&mut self, plugin_name: &str) -> (r: Result<(), String>)
        ensures
            r is Ok == old(self).plugins@.contains_key(plugin_name@),
            r is Ok ==> final(self).plugins@ == old(self).plugins@.insert(
                plugin_name@,
                with_enabled(old(self).plugins@[plugin_name@], false),
            ),
            r matches Err(m) ==> m@ == plugin_not_found_message(plugin_name@) && *final(self)
                == *old(self),
            *final(self) == (ProjectConfig { plugins: final(self).plugins, ..*old(self) }),
    {
        self.set_enabled(plugin_name, false)
    }
}

} // verus!
