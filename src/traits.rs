//! The adapter capability contract and the value types that adapters and the
//! manager exchange: metadata, status, version information, install options,
//! validation summaries and the error kinds.
use crate::config::{PluginConfig, PluginSource, PluginSourceType};
use crate::strmap::StrMap;
use vstd::prelude::*;

verus! {

/// The kinds of failure that plugin operations report, each with a message.
#[derive(Clone, Debug, PartialEq, Eq)]
pub enum PluginError {
    /// An adapter failed while installing.
    InstallationError(String),
    /// A configuration file could not be read, written or parsed, or the
    /// configuration is inconsistent.
    ConfigError(String),
    /// A transport failure.
    NetworkError(String),
    /// A filesystem failure.
    IoError(String),
    /// A semantic validation failure.
    ValidationError(String),
    /// No adapter is registered under the given name.
    NotFound(String),
    /// An authorization failure.
    PermissionDenied(String),
    /// Any other adapter failure.
    PluginError(String),
}

/// The human-readable text of an error: a prefix naming its kind, then its message.
pub open spec fn error_text(e: PluginError) -> Seq<char> {
    match e {
        PluginError::InstallationError(m) => "Installation failed: "@ + m@,
        PluginError::ConfigError(m) => "Configuration error: "@ + m@,
        PluginError::NetworkError(m) => "Network error: "@ + m@,
        PluginError::IoError(m) => "IO error: "@ + m@,
        PluginError::ValidationError(m) => "Validation error: "@ + m@,
        PluginError::NotFound(m) => "Plugin not found: "@ + m@,
        PluginError::PermissionDenied(m) => "Permission denied: "@ + m@,
        PluginError::PluginError(m) => "Plugin error: "@ + m@,
    }
}

impl PluginError {
    /// The error's text, as `error_text` gives it.
    pub fn describe(&self) -> (r: String)
        ensures
            r@ == error_text(*self),
    {
        let (prefix, m) = match self {
            PluginError::InstallationError(m) => ("Installation failed: ", m),
            PluginError::ConfigError(m) => ("Configuration error: ", m),
            PluginError::NetworkError(m) => ("Network error: ", m),
            PluginError::IoError(m) => ("IO error: ", m),
            PluginError::ValidationError(m) => ("Validation error: ", m),
            PluginError::NotFound(m) => ("Plugin not found: ", m),
            PluginError::PermissionDenied(m) => ("Permission denied: ", m),
            PluginError::PluginError(m) => ("Plugin error: ", m),
        };
        prefix.to_owned().concat(m.as_str())
    }
}

/// Descriptive information that an adapter reports about itself.
#[derive(Clone, Debug)]
pub struct PluginMetadata {
    /// Plugin name
    pub name: String,
    /// Plugin version
    pub version: String,
    /// Plugin description
    pub description: String,
    /// Plugin author
    pub author: String,
    /// Plugin homepage
    pub homepage: Option<String>,
    /// Plugin repository
    pub repository: Option<String>,
    /// Supported platforms
    pub supported_platforms: Vec<String>,
    /// Plugin tags
    pub tags: Vec<String>,
    /// Names of plugins this one depends on (informational only)
    pub dependencies: Vec<String>,
    /// Minimum host version
    pub min_plm_version: Option<String>,
}

/// The character sequences of a list of strings.
pub open spec fn strings_view(v: Seq<String>) -> Seq<Seq<char>> {
    v.map_values(|s: String| s@)
}

/// True when the metadata names the adapter and its version, the condition
/// under which validation counts an adapter as valid.
pub open spec fn metadata_complete(m: PluginMetadata) -> bool {
    m.name@.len() > 0 && m.version@.len() > 0
}

/// True when the metadata has a non-empty name and version.
pub fn metadata_is_complete(m: &PluginMetadata) -> (r: bool)
    ensures
        r == metadata_complete(*m),
{
    !m.name.as_str().is_empty() && !m.version.as_str().is_empty()
}

impl Default for PluginMetadata {
    /// Empty identity, version "0.1.0", and the three desktop platforms.
    fn default() -> (r: Self)
        ensures
            r.name@ == Seq::<char>::empty(),
            r.version@ == "0.1.0"@,
            r.description@ == Seq::<char>::empty(),
            r.author@ == Seq::<char>::empty(),
            r.homepage is None,
            r.repository is None,
            strings_view(r.supported_platforms@) == seq!["linux"@, "macos"@, "windows"@],
            r.tags@.len() == 0,
            r.dependencies@.len() == 0,
            r.min_plm_version is None,
    {
        let mut platforms: Vec<String> = Vec::new();
        platforms.push("linux".to_owned());
        platforms.push("macos".to_owned());
        platforms.push("windows".to_owned());
        let r = PluginMetadata {
            name: String::new(),
            version: "0.1.0".to_owned(),
            description: String::new(),
            author: String::new(),
            homepage: None,
            repository: None,
            supported_platforms: platforms,
            tags: Vec::new(),
            dependencies: Vec::new(),
            min_plm_version: None,
        };
        assert(strings_view(r.supported_platforms@) =~= seq!["linux"@, "macos"@, "windows"@]);
        r
    }
}

/// The runtime state of an adapter.
#[derive(Clone, Debug, PartialEq, Eq)]
pub enum PluginStatus {
    /// Plugin is active and ready
    Active,
    /// Plugin is inactive
    Inactive,
    /// Plugin is loading
    Loading,
    /// Plugin has an error
    Error(String),
}

/// One released version of a tool.
#[derive(Clone, Debug)]
pub struct VersionInfo {
    /// Version string
    pub version: String,
    /// Target platform
    pub platform: String,
    /// Download URL
    pub download_url: String,
    /// File checksum
    pub checksum: Option<String>,
    /// Release date
    pub release_date: Option<String>,
    /// Pre-release flag
    pub prerelease: bool,
}

impl VersionInfo {
    /// A stable release with no checksum and no release date.
    pub fn new(version: &str, platform: &str, download_url: &str) -> (r: Self)
        ensures
            r.version@ == version@,
            r.platform@ == platform@,
            r.download_url@ == download_url@,
            r.checksum is None,
            r.release_date is None,
            !r.prerelease,
    {
        VersionInfo {
            version: version.to_owned(),
            platform: platform.to_owned(),
            download_url: download_url.to_owned(),
            checksum: None,
            release_date: None,
            prerelease: false,
        }
    }

    /// The same version information with the given checksum.
    pub fn with_checksum(self, checksum: &str) -> (r: Self)
        ensures
            r.checksum matches Some(c) && c@ == checksum@,
            r == (VersionInfo { checksum: r.checksum, ..self }),
    {
        let mut r = self;
        r.checksum = Some(checksum.to_owned());
        r
    }

    /// The same version information with the given release date.
    pub fn with_release_date(self, date: &str) -> (r: Self)
        ensures
            r.release_date matches Some(d) && d@ == date@,
            r == (VersionInfo { release_date: r.release_date, ..self }),
    {
        let mut r = self;
        r.release_date = Some(date.to_owned());
        r
    }

    /// The same version information, marked as a pre-release.
    pub fn as_prerelease(self) -> (r: Self)
        ensures
            r == (VersionInfo { prerelease: true, ..self }),
    {
        let mut r = self;
        r.prerelease = true;
        r
    }
}

/// Options that an install request hands to an adapter.
#[derive(Clone, Debug)]
pub struct InstallOptions {
    /// Force installation
    pub force: bool,
    /// Enable debug mode
    pub debug: bool,
    /// Skip confirmation prompts
    pub yes: bool,
    /// Quiet mode (minimal output)
    pub quiet: bool,
    /// Custom installation directory
    pub install_dir: Option<String>,
    /// Additional environment variables
    pub env_vars: StrMap<String>,
}

impl Default for InstallOptions {
    /// Every flag off, no directory, no extra variables.
    fn default() -> (r: Self)
        ensures
            !r.force && !r.debug && !r.yes && !r.quiet,
            r.install_dir is None,
            r.env_vars@ == Map::<Seq<char>, String>::empty(),
    {
        InstallOptions {
            force: false,
            debug: false,
            yes: false,
            quiet: false,
            install_dir: None,
            env_vars: StrMap::new(),
        }
    }
}

impl InstallOptions {
    /// The default options.
    pub fn new() -> (r: Self)
        ensures
            !r.force && !r.debug && !r.yes && !r.quiet,
            r.install_dir is None,
            r.env_vars@ == Map::<Seq<char>, String>::empty(),
    {
        Self::default()
    }

    /// The same options with forced installation.
    pub fn force(self) -> (r: Self)
        ensures
            r == (InstallOptions { force: true, ..self }),
    {
        let mut r = self;
        r.force = true;
        r
    }

    /// The same options with debug mode.
    pub fn debug(self) -> (r: Self)
        ensures
            r == (InstallOptions { debug: true, ..self }),
    {
        let mut r = self;
        r.debug = true;
        r
    }

    /// The same options, skipping confirmation prompts.
    pub fn yes(self) -> (r: Self)
        ensures
            r == (InstallOptions { yes: true, ..self }),
    {
        let mut r = self;
        r.yes = true;
        r
    }

    /// The same options in quiet mode.
    pub fn quiet(self) -> (r: Self)
        ensures
            r == (InstallOptions { quiet: true, ..self }),
    {
        let mut r = self;
        r.quiet = true;
        r
    }

    /// The same options with a custom installation directory.
    pub fn install_dir(self, dir: &str) -> (r: Self)
        ensures
            r.install_dir matches Some(d) && d@ == dir@,
            r == (InstallOptions { install_dir: r.install_dir, ..self }),
    {
        let mut r = self;
        r.install_dir = Some(dir.to_owned());
        r
    }

    /// The same options with one more environment variable; a variable of
    /// the same name is replaced.
    pub fn env_var(self, key: &str, value: &str) -> (r: Self)
        ensures
            r.env_vars@.dom() == self.env_vars@.dom().insert(key@),
            r.env_vars@[key@]@ == value@,
            forall|k: Seq<char>|
                k != key@ && #[trigger] self.env_vars@.contains_key(k) ==> r.env_vars@[k]
                    == self.env_vars@[k],
            r.force == self.force && r.debug == self.debug && r.yes == self.yes && r.quiet
                == self.quiet && r.install_dir == self.install_dir,
    {
        let mut r = self;
        r.env_vars.insert(key.to_owned(), value.to_owned());
        r
    }
}

/// The outcome of validating every registered adapter.
#[derive(Clone, Debug)]
pub struct ValidationSummary {
    /// Number of adapters whose metadata is complete
    pub valid_plugins: usize,
    /// Number of adapters whose metadata is incomplete
    pub invalid_plugins: usize,
    /// One message for each invalid adapter, in the order they were checked
    pub errors: Vec<String>,
}

impl ValidationSummary {
    /// True when no adapter was found invalid.
    pub fn is_all_valid(&self) -> (r: bool)
        ensures
            r == (self.invalid_plugins == 0),
    {
        self.invalid_plugins == 0
    }

    /// The number of adapters that were checked.
    pub fn total_plugins(&self) -> (r: usize)
        requires
            self.valid_plugins + self.invalid_plugins <= usize::MAX,
        ensures
            r == self.valid_plugins + self.invalid_plugins,
    {
        self.valid_plugins + self.invalid_plugins
    }
}

/// The capability set of a tool adapter.  Implementations manage the
/// versions of one external tool; the manager reaches them only through
/// these methods.
pub trait Plugin {
    /// True when `m` is metadata that this adapter may report.  An adapter
    /// that describes itself exactly defines it as equality with its own
    /// metadata; by default any metadata qualifies, which says nothing.
    open spec fn reports_metadata(&self, m: PluginMetadata) -> bool {
        true
    }

    /// True when `initialize` may take the adapter from `self` to `after`
    /// with result `r`.  By default every outcome qualifies.
    open spec fn initialize_spec(&self, after: Self, r: Result<(), PluginError>) -> bool where Self: Sized {
        true
    }

    /// True when `shutdown` may take the adapter from `self` to `after`
    /// with result `r`.  By default every outcome qualifies.
    open spec fn shutdown_spec(&self, after: Self, r: Result<(), PluginError>) -> bool where Self: Sized {
        true
    }

    /// True when `install` of `version` with `options` may return `r`.  By
    /// default every outcome qualifies.
    open spec fn install_spec(
        &self,
        version: Seq<char>,
        options: InstallOptions,
        r: Result<String, PluginError>,
    ) -> bool {
        true
    }

    /// True when `uninstall` of `version` may return `r`.  By default every
    /// outcome qualifies.
    open spec fn uninstall_spec(&self, version: Seq<char>, r: Result<(), PluginError>) -> bool {
        true
    }

    /// The adapter's metadata: a fresh snapshot.
    fn metadata(&self) -> (r: PluginMetadata)
        ensures
            self.reports_metadata(r),
    ;

    /// The adapter's current status.
    fn status(&self) -> PluginStatus;

    /// Moves the adapter to its active state.  The metadata it reports
    /// does not change.
    fn initialize(&mut self) -> (r: Result<(), PluginError>)
        where Self: Sized
        ensures
            old(self).initialize_spec(*final(self), r),
            forall|m: PluginMetadata| #[trigger] final(self).reports_metadata(m) == old(self).reports_metadata(m),
    ;

    /// Moves the adapter to its inactive state.  The metadata it reports
    /// does not change.
    fn shutdown(&mut self) -> (r: Result<(), PluginError>)
        where Self: Sized
        ensures
            old(self).shutdown_spec(*final(self), r),
            forall|m: PluginMetadata| #[trigger] final(self).reports_metadata(m) == old(self).reports_metadata(m),
    ;

    /// Installs a version of the tool and returns where it was installed.
    fn install(&self, version: &str, options: &InstallOptions) -> (r: Result<String, PluginError>)
        ensures
            self.install_spec(version@, *options, r),
    ;

    /// Uninstalls a version of the tool.
    fn uninstall(&self, version: &str) -> (r: Result<(), PluginError>)
        ensures
            self.uninstall_spec(version@, r),
    ;

    /// The versions that can be installed.
    fn list_versions(&self) -> Result<Vec<VersionInfo>, PluginError>;

    /// The versions that are installed.
    fn list_installed(&self) -> Result<Vec<String>, PluginError>;

    /// True when the version is installed.
    fn is_installed(&self, version: &str) -> Result<bool, PluginError>;

    /// The newest version that can be installed.
    fn get_latest_version(&self) -> Result<VersionInfo, PluginError>;

    /// Updates to the given version, or to the latest, and returns the version reached.
    fn update(&self, version: Option<&str>) -> Result<String, PluginError>;

    /// Makes the given installed version the current one.
    fn switch_version(&self, version: &str) -> Result<(), PluginError>;

    /// True when the installation of the version is intact.
    fn verify_installation(&self, version: &str) -> Result<bool, PluginError>;

    /// Removes cached artifacts.
    fn cleanup(&self) -> Result<(), PluginError>;

    /// The adapter's own settings.
    fn get_config(&self) -> Result<StrMap<String>, PluginError>;

    /// Replaces the adapter's own settings.
    fn set_config(&self, config: StrMap<String>) -> Result<(), PluginError>;

    /// One of the adapter's own settings.
    fn get_config_value(&self, key: &str) -> Result<Option<String>, PluginError>;

    /// Sets one of the adapter's own settings.
    fn set_config_value(&self, key: &str, value: &str) -> Result<(), PluginError>;

    /// Runs an adapter-specific command and returns its output.
    fn execute_command(&self, command: &str, args: &[&str]) -> Result<String, PluginError>;

    /// Help text for the adapter.
    fn get_help(&self) -> String;

    /// True when the adapter supports the named feature.
    fn supports_feature(&self, feature: &str) -> bool;
}

/// Creates adapters from their configuration.
pub trait PluginFactory {
    /// The kind of adapter that this factory creates.
    type Created: Plugin;

    /// Creates an adapter for the configuration.
    fn create_plugin(&self, config: &PluginConfig) -> Result<Self::Created, PluginError>;

    /// The adapter types that this factory supports.
    fn supported_types(&self) -> Vec<String>;

    /// Checks a configuration before an adapter is created from it.
    fn validate_config(&self, config: &PluginConfig) -> Result<(), PluginError>;
}

/// Loads adapters from the places that a plugin source describes.
pub trait PluginLoader {
    /// The kind of adapter that this loader produces.
    type Loaded: Plugin;

    /// Loads an adapter from the source.
    fn load_plugin(&self, source: &PluginSource) -> Result<Self::Loaded, PluginError>;

    /// True when sources of this type can be loaded.
    fn supports_source(&self, source_type: &PluginSourceType) -> bool;

    /// Checks a source before loading from it.
    fn validate_source(&self, source: &PluginSource) -> Result<(), PluginError>;
}

} // verus!
