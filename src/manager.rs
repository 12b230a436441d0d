//! The lifecycle manager: a registry of adapters keyed by name, the bulk
//! initialize and shutdown passes over it, dispatch of per-name operations,
//! and the project configuration that the running process holds.
//!
//! The manager owns its adapters.  `initialize` and `shutdown` take the
//! manager by `&mut`, so no handle returned by `get_plugin` can be alive
//! while they run: exclusive access to every adapter is guaranteed by the
//! borrow rules rather than detected at run time.
use crate::config::{PluginConfig, ProjectConfig, Timestamp};
use crate::strmap::{keys_of, StrMap};
use crate::traits::{
    error_text, metadata_complete, metadata_is_complete, strings_view, InstallOptions, Plugin,
    PluginError, PluginMetadata, ValidationSummary,
};
use vstd::prelude::*;

verus! {

/// The message that reports an adapter whose initialization failed.
pub open spec fn init_failure_message(name: Seq<char>, e: PluginError) -> Seq<char> {
    "plugin "@ + name + " failed to initialize: "@ + error_text(e)
}

/// The warning that reports an adapter whose shutdown failed.
pub open spec fn shutdown_warning_message(name: Seq<char>, e: PluginError) -> Seq<char> {
    "plugin "@ + name + " failed to shut down: "@ + error_text(e)
}

/// The validation message for an adapter with incomplete metadata.
pub open spec fn incomplete_message(name: Seq<char>) -> Seq<char> {
    "plugin "@ + name + " has incomplete metadata"@
}

/// The number of complete records among `ms`.
pub open spec fn count_complete(ms: Seq<PluginMetadata>) -> nat
    decreases ms.len(),
{
    if ms.len() == 0 {
        0
    } else {
        count_complete(ms.drop_last()) + if metadata_complete(ms.last()) {
            1nat
        } else {
            0nat
        }
    }
}

/// One validation message for each incomplete record among `ms`, in order,
/// each naming the adapter at the same position of `names`.
pub open spec fn validation_errors(names: Seq<Seq<char>>, ms: Seq<PluginMetadata>) -> Seq<Seq<char>>
    decreases ms.len(),
{
    if ms.len() == 0 {
        Seq::empty()
    } else if metadata_complete(ms.last()) {
        validation_errors(names, ms.drop_last())
    } else {
        validation_errors(names, ms.drop_last()).push(incomplete_message(names[ms.len() - 1]))
    }
}

/// One warning for each failed result among `rs`, in order, each naming the
/// adapter at the same position of `names`.
pub open spec fn shutdown_warnings(names: Seq<Seq<char>>, rs: Seq<Result<(), PluginError>>) -> Seq<Seq<char>>
    decreases rs.len(),
{
    if rs.len() == 0 {
        Seq::empty()
    } else {
        match rs.last() {
            Ok(_) => shutdown_warnings(names, rs.drop_last()),
            Err(e) => shutdown_warnings(names, rs.drop_last()).push(
                shutdown_warning_message(names[rs.len() - 1], e),
            ),
        }
    }
}

/// The version that an install request asks for: the given one, or "latest".
pub open spec fn version_or_latest(version: Option<&str>) -> Seq<char> {
    match version {
        Some(v) => v@,
        None => "latest"@,
    }
}

/// The error that reports an adapter whose initialization failed.
pub fn init_failure(name: &str, e: &PluginError) -> (r: PluginError)
    ensures
        r matches PluginError::PluginError(m) && m@ == init_failure_message(name@, *e),
{
    let m = "plugin ".to_owned().concat(name).concat(" failed to initialize: ").concat(
        e.describe().as_str(),
    );
    PluginError::PluginError(m)
}

/// The warning that reports an adapter whose shutdown failed.
pub fn shutdown_warning(name: &str, e: &PluginError) -> (r: String)
    ensures
        r@ == shutdown_warning_message(name@, *e),
{
    "plugin ".to_owned().concat(name).concat(" failed to shut down: ").concat(e.describe().as_str())
}

/// The version that an install request asks for: the given one, or "latest".
fn requested_version<'a>(version: Option<&'a str>) -> (r: &'a str)
    ensures
        r@ == version_or_latest(version),
{
    match version {
        Some(v) => v,
        None => "latest",
    }
}

/// Owns the adapter registry and the project configuration.
pub struct PluginManager<P> {
    plugins: StrMap<P>,
    config: ProjectConfig,
}

/// True when `after` holds the same names as `before`, in the same order,
/// and each adapter reports the same metadata as before.
pub open spec fn same_names_and_metadata<P: Plugin>(
    before: Seq<(Seq<char>, P)>,
    after: Seq<(Seq<char>, P)>,
) -> bool {
    &&& after.len() == before.len()
    &&& forall|i: int| 0 <= i < before.len() ==> #[trigger] after[i].0 == before[i].0
    &&& forall|i: int, m: PluginMetadata|
        0 <= i < before.len() ==> #[trigger] after[i].1.reports_metadata(m) == before[i].1.reports_metadata(m)
}

/// True when an initialize pass stopped at position `j` with error `e`: the
/// adapters before it initialized successfully, the adapter at `j` failed
/// with `e`, and the adapters after it were not touched.
pub open spec fn init_stopped_at<P: Plugin>(
    before: Seq<(Seq<char>, P)>,
    after: Seq<(Seq<char>, P)>,
    j: int,
    e: PluginError,
) -> bool {
    &&& 0 <= j < before.len()
    &&& forall|i: int| 0 <= i < j ==> #[trigger] before[i].1.initialize_spec(after[i].1, Ok::<(), PluginError>(()))
    &&& before[j].1.initialize_spec(after[j].1, Err::<(), PluginError>(e))
    &&& forall|k: int| j < k < before.len() ==> #[trigger] after[k] == before[k]
}

/// What `initialize` leaves: the same names registered, each adapter
/// reporting the same metadata, and the same configuration.  On success
/// every adapter initialized successfully; on failure the pass stopped at
/// the first adapter that failed, and the error names it and its error.
pub open spec fn initialized<P: Plugin>(
    before: PluginManager<P>,
    after: PluginManager<P>,
    r: Result<(), PluginError>,
) -> bool {
    &&& same_names_and_metadata(before.entries(), after.entries())
    &&& after.registry().dom() == before.registry().dom()
    &&& after.project_config() == before.project_config()
    &&& r is Ok ==> forall|i: int|
        0 <= i < before.entries().len() ==> #[trigger] before.entries()[i].1.initialize_spec(
            after.entries()[i].1,
            Ok::<(), PluginError>(()),
        )
    &&& r is Err ==> exists|j: int, e: PluginError|
        #[trigger] init_stopped_at(before.entries(), after.entries(), j, e) && (r matches Err(
            PluginError::PluginError(m),
        ) && m@ == init_failure_message(before.entries()[j].0, e))
}

/// True when `rs` and `ends` record, for each entry, a result and final
/// state that its adapter's `shutdown` may produce.
pub open spec fn shutdown_record<P: Plugin>(
    es: Seq<(Seq<char>, P)>,
    rs: Seq<Result<(), PluginError>>,
    ends: Seq<P>,
) -> bool {
    &&& rs.len() == es.len()
    &&& ends.len() == es.len()
    &&& forall|i: int| 0 <= i < es.len() ==> #[trigger] es[i].1.shutdown_spec(ends[i], rs[i])
}

/// What `shutdown` leaves: every adapter was shut down, an empty registry,
/// the same configuration, and success, with one warning for each adapter
/// whose shutdown failed, in registry order.
pub open spec fn shut_down<P: Plugin>(
    before: PluginManager<P>,
    after: PluginManager<P>,
    r: Result<Vec<String>, PluginError>,
) -> bool {
    &&& after.registry() == Map::<Seq<char>, P>::empty()
    &&& after.entries().len() == 0
    &&& after.project_config() == before.project_config()
    &&& r matches Ok(w) && exists|rs: Seq<Result<(), PluginError>>, ends: Seq<P>|
        #[trigger] shutdown_record(before.entries(), rs, ends) && strings_view(w@) == shutdown_warnings(
            keys_of(before.entries()),
            rs,
        )
}

/// What a lookup returns: the registered adapter, or `NotFound` with the name.
pub open spec fn looked_up<P: Plugin>(m: PluginManager<P>, name: Seq<char>, r: Result<&P, PluginError>) -> bool {
    &&& m.registry().contains_key(name) ==> (r matches Ok(p) && *p == m.registry()[name])
    &&& !m.registry().contains_key(name) ==> (r matches Err(PluginError::NotFound(n)) && n@ == name)
}

/// What a per-name dispatch returns when no adapter has the name: `NotFound`
/// with the name.
pub open spec fn dispatch_checked<P: Plugin, T>(m: PluginManager<P>, name: Seq<char>, r: Result<T, PluginError>) -> bool {
    !m.registry().contains_key(name) ==> (r matches Err(PluginError::NotFound(n)) && n@ == name)
}

/// True when `ms` holds, for each entry, metadata that its adapter reports.
pub open spec fn metadata_record<P: Plugin>(es: Seq<(Seq<char>, P)>, ms: Seq<PluginMetadata>) -> bool {
    &&& ms.len() == es.len()
    &&& forall|i: int| 0 <= i < es.len() ==> #[trigger] es[i].1.reports_metadata(ms[i])
}

/// What validation returns: counts and messages computed from metadata
/// that each adapter reported, in registry order.
pub open spec fn validated<P: Plugin>(m: PluginManager<P>, r: Result<ValidationSummary, PluginError>) -> bool {
    r matches Ok(s) && exists|ms: Seq<PluginMetadata>|
        #[trigger] metadata_record(m.entries(), ms) && s.valid_plugins == count_complete(ms)
            && s.invalid_plugins == ms.len() - count_complete(ms) && s.valid_plugins + s.invalid_plugins
            == m.registry().len() && strings_view(s.errors@) == validation_errors(keys_of(m.entries()), ms)
}

impl<P: Plugin> PluginManager<P> {
    /// The registry: adapter name to adapter.
    pub closed spec fn registry(&self) -> Map<Seq<char>, P> {
        self.plugins@
    }

    /// The registry's entries in stored order.
    pub closed spec fn entries(&self) -> Seq<(Seq<char>, P)> {
        self.plugins.entries()
    }

    /// The project configuration that the manager holds.
    pub closed spec fn project_config(&self) -> ProjectConfig {
        self.config
    }

    /// A manager with an empty registry and the default configuration of a
    /// project named "default" rooted at ".", created at `now`.
    pub fn new(now: Timestamp) -> (r: Result<Self, PluginError>)
        ensures
            r matches Ok(m) && m.registry() == Map::<Seq<char>, P>::empty() && m.entries().len() == 0
                && m.project_config().project.name@ == "default"@
                && m.project_config().project.root_path@ == "."@
                && m.project_config().project.created_at == now
                && m.project_config().plugins@ == Map::<Seq<char>, PluginConfig>::empty(),
    {
        let config = ProjectConfig::default_for_project("default", ".", now);
        Ok(PluginManager { plugins: StrMap::new(), config })
    }

    /// A manager with an empty registry that holds the given configuration.
    pub fn from_project_config(config: ProjectConfig) -> (r: Result<Self, PluginError>)
        ensures
            r matches Ok(m) && m.registry() == Map::<Seq<char>, P>::empty() && m.entries().len() == 0
                && m.project_config() == config,
    {
        Ok(PluginManager { plugins: StrMap::new(), config })
    }

    /// Initializes every registered adapter in registry order, stopping at
    /// the first failure; adapters initialized before it stay initialized.
    pub fn initialize(&mut self) -> (r: Result<(), PluginError>)
        ensures
            initialized(*old(self), *final(self), r),
    {
        let ghost start = *self;
        let ghost es0 = self.plugins.entries();
        let n = self.plugins.len();
        let mut failure: Option<PluginError> = None;
        let ghost mut failed_at: int = 0;
        let ghost mut failed_err: PluginError = arbitrary();
        let mut i: usize = 0;
        while i < n && failure.is_none()
            invariant
                es0 == start.entries(),
                n == es0.len(),
                i <= n,
                self.config == start.config,
                same_names_and_metadata(es0, self.plugins.entries()),
                self.plugins@.dom() == start.registry().dom(),
                forall|k: int| i <= k < n ==> #[trigger] self.plugins.entries()[k] == es0[k],
                failure is None ==> forall|k: int|
                    0 <= k < i ==> #[trigger] es0[k].1.initialize_spec(
                        self.plugins.entries()[k].1,
                        Ok::<(), PluginError>(()),
                    ),
                failure matches Some(err) ==> (i == failed_at + 1 && init_stopped_at(
                    es0,
                    self.plugins.entries(),
                    failed_at,
                    failed_err,
                ) && (err matches PluginError::PluginError(m) && m@ == init_failure_message(
                    es0[failed_at].0,
                    failed_err,
                ))),
            decreases n - i,
        {
            let ghost before = self.plugins.entries();
            let ghost before_map = self.plugins@;
            let outcome = self.plugins.value_mut_at(i).initialize();
            proof {
                let after = self.plugins.entries();
                assert(after == before.update(i as int, (before[i as int].0, after[i as int].1)));
                assert(es0[i as int].1.initialize_spec(after[i as int].1, outcome));
                assert forall|k: int| 0 <= k < n implies #[trigger] after[k].0 == es0[k].0 by {
                    assert(before[k].0 == es0[k].0);
                }
                assert forall|k: int, m: PluginMetadata| 0 <= k < n implies #[trigger] after[k].1.reports_metadata(m)
                    == es0[k].1.reports_metadata(m) by {
                    assert(before[k].1.reports_metadata(m) == es0[k].1.reports_metadata(m));
                }
                assert(before_map.dom().contains(before[i as int].0)) by {
                    crate::strmap::lemma_keys_in_map(before, i as int);
                }
                assert(self.plugins@.dom() =~= before_map.dom());
                assert forall|k: int| 0 <= k < i implies #[trigger] es0[k].1.initialize_spec(
                    after[k].1,
                    Ok::<(), PluginError>(()),
                ) by {
                    assert(after[k] == before[k]);
                }
                assert forall|k: int| i < k < n implies #[trigger] after[k] == es0[k] by {
                    assert(after[k] == before[k]);
                }
                if let Ok(u) = outcome {
                    assert(u == ());
                    assert(outcome == Ok::<(), PluginError>(()));
                    assert forall|k: int| 0 <= k < i + 1 implies #[trigger] es0[k].1.initialize_spec(
                        after[k].1,
                        Ok::<(), PluginError>(()),
                    ) by {
                        if k < i {
                            assert(after[k] == before[k]);
                        }
                    }
                }
            }
            if let Err(e) = outcome {
                let key = self.plugins.key_at(i);
                let err = init_failure(key.as_str(), &e);
                proof {
                    failed_at = i as int;
                    failed_err = e;
                    assert(key@ == es0[i as int].0);
                    assert(init_stopped_at(es0, self.plugins.entries(), failed_at, failed_err));
                }
                failure = Some(err);
            }
            i += 1;
        }
        match failure {
            Some(err) => {
                proof {
                    assert(init_stopped_at(es0, self.plugins.entries(), failed_at, failed_err));
                }
                Err(err)
            },
            None => Ok(()),
        }
    }

    /// Shuts down every registered adapter, continuing past failures, then
    /// empties the registry.  Returns a warning for each failed shutdown.
    pub fn shutdown(&mut self) -> (r: Result<Vec<String>, PluginError>)
        ensures
            shut_down(*old(self), *final(self), r),
    {
        let ghost start = *self;
        let ghost es0 = self.plugins.entries();
        let ghost names = keys_of(es0);
        let n = self.plugins.len();
        let mut warnings: Vec<String> = Vec::new();
        let ghost mut rs: Seq<Result<(), PluginError>> = Seq::empty();
        let ghost mut ends: Seq<P> = Seq::empty();
        let mut i: usize = 0;
        while i < n
            invariant
                es0 == start.entries(),
                names == keys_of(es0),
                n == es0.len(),
                n == self.plugins.entries().len(),
                i <= n,
                self.config == start.config,
                forall|k: int| 0 <= k < n ==> #[trigger] self.plugins.entries()[k].0 == es0[k].0,
                forall|k: int| i <= k < n ==> #[trigger] self.plugins.entries()[k] == es0[k],
                rs.len() == i,
                ends.len() == i,
                forall|k: int| 0 <= k < i ==> #[trigger] es0[k].1.shutdown_spec(ends[k], rs[k]),
                strings_view(warnings@) == shutdown_warnings(names, rs),
            decreases n - i,
        {
            let ghost before = self.plugins.entries();
            let outcome = self.plugins.value_mut_at(i).shutdown();
            proof {
                let after = self.plugins.entries();
                assert(after == before.update(i as int, (before[i as int].0, after[i as int].1)));
                assert(es0[i as int].1.shutdown_spec(after[i as int].1, outcome));
                assert forall|k: int| 0 <= k < n implies #[trigger] after[k].0 == es0[k].0 by {
                    assert(before[k].0 == es0[k].0);
                }
            }
            let ghost rs_before = rs;
            proof {
                let after = self.plugins.entries();
                ends = ends.push(after[i as int].1);
                rs = rs.push(outcome);
                assert(rs.drop_last() =~= rs_before);
                assert(rs.last() == outcome);
                assert forall|k: int| 0 <= k < i + 1 implies #[trigger] es0[k].1.shutdown_spec(ends[k], rs[k]) by {
                    if k < i {
                        assert(ends[k] == ends.drop_last()[k]);
                    }
                }
                assert forall|k: int| i < k < n implies #[trigger] after[k] == es0[k] by {
                    assert(after[k] == before[k]);
                }
            }
            let ghost prior = warnings@;
            match outcome {
                Ok(()) => {
                    proof {
                        assert(shutdown_warnings(names, rs) == shutdown_warnings(names, rs_before));
                    }
                },
                Err(e) => {
                    let key = self.plugins.key_at(i);
                    let w = shutdown_warning(key.as_str(), &e);
                    proof {
                        assert(names[i as int] == key@);
                    }
                    warnings.push(w);
                    proof {
                        assert(strings_view(warnings@) =~= strings_view(prior).push(w@));
                        assert(shutdown_warnings(names, rs) == shutdown_warnings(names, rs_before).push(
                            shutdown_warning_message(names[i as int], e),
                        ));
                    }
                },
            }
            i += 1;
        }
        proof {
            assert(shutdown_record(es0, rs, ends));
        }
        self.plugins.clear();
        Ok(warnings)
    }

    /// Registers an adapter under `name`, replacing any adapter registered
    /// under it.  The adapter is not initialized.
    pub fn register_plugin_for_test(&mut self, name: String, plugin: P) -> (r: Result<(), PluginError>)
        ensures
            r is Ok,
            final(self).registry() == old(self).registry().insert(name@, plugin),
            final(self).project_config() == old(self).project_config(),
    {
        self.plugins.insert(name, plugin);
        Ok(())
    }

    /// The adapter registered under `name`.
    pub fn get_plugin(&self, name: &str) -> (r: Result<&P, PluginError>)
        ensures
            looked_up(*self, name@, r),
    {
        match self.plugins.get(name) {
            Some(p) => Ok(p),
            None => Err(PluginError::NotFound(name.to_owned())),
        }
    }

    /// The names of the registered adapters.
    pub fn list_plugins(&self) -> (r: Vec<String>)
        ensures
            strings_view(r@).to_set() == self.registry().dom(),
            strings_view(r@).no_duplicates(),
            r@.len() == self.registry().len(),
    {
        let r = self.plugins.keys();
        proof {
            assert(strings_view(r@) =~= r@.map_values(|s: String| s@));
            strings_view(r@).unique_seq_to_set();
        }
        r
    }

    /// Installs a version (by default "latest") through the adapter
    /// registered under `name` and returns what the adapter returned; an
    /// unregistered name gives `NotFound`.
    pub fn install_plugin(&self, name: &str, version: Option<&str>, options: &InstallOptions) -> (r:
        Result<String, PluginError>)
        ensures
            dispatch_checked(*self, name@, r),
            self.registry().contains_key(name@) ==> self.registry()[name@].install_spec(
                version_or_latest(version),
                *options,
                r,
            ),
    {
        let plugin = self.get_plugin(name)?;
        plugin.install(requested_version(version), options)
    }

    /// Uninstalls a version through the adapter registered under `name` and
    /// returns what the adapter returned; an unregistered name gives `NotFound`.
    pub fn uninstall_plugin(&self, name: &str, version: &str) -> (r: Result<(), PluginError>)
        ensures
            dispatch_checked(*self, name@, r),
            self.registry().contains_key(name@) ==> self.registry()[name@].uninstall_spec(version@, r),
    {
        let plugin = self.get_plugin(name)?;
        plugin.uninstall(version)
    }

    /// The number of adapters now registered.
    pub fn discover_plugins(&self) -> (r: Result<usize, PluginError>)
        ensures
            r matches Ok(k) && k == self.registry().len(),
    {
        Ok(self.plugins.len())
    }

    /// Counts the adapters whose metadata has a non-empty name and version,
    /// and lists a message for each of the others.
    pub fn validate_all_plugins(&self) -> (r: Result<ValidationSummary, PluginError>)
        ensures
            validated(*self, r),
    {
        let ghost es = self.plugins.entries();
        let ghost names = keys_of(es);
        let n = self.plugins.len();
        let mut valid: usize = 0;
        let mut invalid: usize = 0;
        let mut errors: Vec<String> = Vec::new();
        let ghost mut ms: Seq<PluginMetadata> = Seq::empty();
        let mut i: usize = 0;
        while i < n
            invariant
                es == self.plugins.entries(),
                names == keys_of(es),
                n == es.len(),
                n == self.registry().len(),
                i <= n,
                ms.len() == i,
                forall|k: int| 0 <= k < i ==> #[trigger] es[k].1.reports_metadata(ms[k]),
                valid + invalid == i,
                valid == count_complete(ms),
                strings_view(errors@) == validation_errors(names, ms),
            decreases n - i,
        {
            let md = self.plugins.value_at(i).metadata();
            let complete = metadata_is_complete(&md);
            let ghost prior_ms = ms;
            proof {
                ms = ms.push(md);
                assert(ms.drop_last() =~= prior_ms);
            }
            if complete {
                valid += 1;
            } else {
                invalid += 1;
                let key = self.plugins.key_at(i);
                let msg = "plugin ".to_owned().concat(key.as_str()).concat(" has incomplete metadata");
                let ghost prior = errors@;
                errors.push(msg);
                proof {
                    assert(names[i as int] == key@);
                    assert(strings_view(errors@) =~= strings_view(prior).push(msg@));
                }
            }
            i += 1;
        }
        let r = ValidationSummary { valid_plugins: valid, invalid_plugins: invalid, errors };
        proof {
            assert(metadata_record(es, ms));
            assert(r.valid_plugins + r.invalid_plugins == self.registry().len());
            assert(r.invalid_plugins == ms.len() - count_complete(ms));
            assert(strings_view(r.errors@) == validation_errors(keys_of(self.entries()), ms));
        }
        Ok(r)
    }

    /// The project configuration.
    pub fn get_config(&self) -> (r: &ProjectConfig)
        ensures
            *r == self.project_config(),
    {
        &self.config
    }

    /// Replaces the project configuration; the registry is untouched.
    pub fn update_config(&mut self, config: ProjectConfig)
        ensures
            final(self).project_config() == config,
            final(self).registry() == old(self).registry(),
            final(self).entries() == old(self).entries(),
    {
        self.config = config;
    }

    /// Adds an adapter's configuration to the project configuration.
    pub fn add_plugin_config(&mut self, plugin_config: PluginConfig)
        ensures
            final(self).project_config().plugins@ == old(self).project_config().plugins@.insert(
                plugin_config.name@,
                plugin_config,
            ),
            final(self).project_config() == (ProjectConfig {
                plugins: final(self).project_config().plugins,
                ..old(self).project_config()
            }),
            final(self).registry() == old(self).registry(),
            final(self).entries() == old(self).entries(),
    {
        self.config.add_plugin(plugin_config);
    }

    /// Removes an adapter's configuration from the project configuration.
    pub fn remove_plugin_config(&mut self, name: &str)
        ensures
            final(self).project_config().plugins@ == old(self).project_config().plugins@.remove(name@),
            final(self).project_config() == (ProjectConfig {
                plugins: final(self).project_config().plugins,
                ..old(self).project_config()
            }),
            final(self).registry() == old(self).registry(),
            final(self).entries() == old(self).entries(),
    {
        self.config.remove_plugin(name);
    }

    /// The configuration of the named adapter.
    pub fn get_plugin_config(&self, name: &str) -> (r: Option<&PluginConfig>)
        ensures
            r is Some == self.project_config().plugins@.contains_key(name@),
            r matches Some(p) ==> *p == self.project_config().plugins@[name@],
    {
        self.config.get_plugin(name)
    }
}

} // verus!
