//! Properties that relate several operations of the library.
use crate::config::{setting_stored, PluginConfig};
use crate::manager::{
    count_complete, dispatch_checked, init_failure_message, init_stopped_at, initialized,
    looked_up, metadata_record, shut_down, validated, validation_errors, PluginManager,
};
use crate::strmap::keys_of;
use crate::traits::{
    metadata_complete, strings_view, Plugin, PluginError, PluginMetadata, ValidationSummary,
};
use vstd::prelude::*;

verus! {

/// Looking up a name that was just registered finds the registered adapter
/// itself, on every lookup, so every lookup reports that adapter's metadata.
pub proof fn law_lookup_finds_registered<P: Plugin>(
    before: PluginManager<P>,
    after: PluginManager<P>,
    name: Seq<char>,
    adapter: P,
    first: Result<&P, PluginError>,
    second: Result<&P, PluginError>,
)
    requires
        after.registry() == before.registry().insert(name, adapter),
        looked_up(after, name, first),
        looked_up(after, name, second),
    ensures
        first matches Ok(h) && *h == adapter,
        second matches Ok(h) && *h == adapter,
{
}

/// When no adapter can fail to initialize, initializing succeeds; a
/// shutdown after it leaves the registry empty, reports success, and keeps
/// the configuration that the manager held.
pub proof fn law_initialize_then_shutdown<P: Plugin>(
    start: PluginManager<P>,
    running: PluginManager<P>,
    stopped: PluginManager<P>,
    init: Result<(), PluginError>,
    stop: Result<Vec<String>, PluginError>,
)
    requires
        forall|i: int, after: P, e: PluginError|
            0 <= i < start.entries().len() ==> !(#[trigger] start.entries()[i].1.initialize_spec(
                after,
                Err::<(), PluginError>(e),
            )),
        initialized(start, running, init),
        shut_down(running, stopped, stop),
    ensures
        init is Ok,
        stopped.registry() == Map::<Seq<char>, P>::empty(),
        stop is Ok,
        stopped.project_config() == start.project_config(),
{
    if init is Err {
        let (j, e) = choose|j: int, e: PluginError| #[trigger] init_stopped_at(start.entries(), running.entries(), j, e)
            && (init matches Err(PluginError::PluginError(m)) && m@ == init_failure_message(start.entries()[j].0, e));
        assert(start.entries()[j].1.initialize_spec(running.entries()[j].1, Err::<(), PluginError>(e)));
    }
}

/// When every adapter reports only metadata with a name and a version, the
/// count of valid adapters is the registry's size and no error is reported.
pub proof fn law_complete_metadata_all_valid<P: Plugin>(
    m: PluginManager<P>,
    r: Result<ValidationSummary, PluginError>,
)
    requires
        validated(m, r),
        forall|i: int, md: PluginMetadata|
            0 <= i < m.entries().len() && #[trigger] m.entries()[i].1.reports_metadata(md) ==> metadata_complete(md),
    ensures
        r matches Ok(s) && s.valid_plugins == m.registry().len() && s.invalid_plugins == 0
            && s.errors@.len() == 0,
{
    if let Ok(s) = r {
        let ms = choose|ms: Seq<PluginMetadata>|
            #[trigger] metadata_record(m.entries(), ms) && s.valid_plugins == count_complete(ms)
                && s.invalid_plugins == ms.len() - count_complete(ms) && s.valid_plugins + s.invalid_plugins
                == m.registry().len() && strings_view(s.errors@) == validation_errors(keys_of(m.entries()), ms);
        assert forall|k: int| 0 <= k < ms.len() implies metadata_complete(#[trigger] ms[k]) by {
            assert(m.entries()[k].1.reports_metadata(ms[k]));
        }
        lemma_all_complete(keys_of(m.entries()), ms);
        assert(strings_view(s.errors@).len() == 0);
    }
}

/// Initializing keeps the metadata that adapters report, so validation
/// after an initialize counts every adapter as valid when every adapter
/// reported only complete metadata before it.
pub proof fn law_validation_after_initialize<P: Plugin>(
    start: PluginManager<P>,
    running: PluginManager<P>,
    init: Result<(), PluginError>,
    r: Result<ValidationSummary, PluginError>,
)
    requires
        forall|i: int, md: PluginMetadata|
            0 <= i < start.entries().len() && #[trigger] start.entries()[i].1.reports_metadata(md)
                ==> metadata_complete(md),
        initialized(start, running, init),
        validated(running, r),
    ensures
        r matches Ok(s) && s.valid_plugins == start.registry().len() && s.invalid_plugins == 0
            && s.errors@.len() == 0,
{
    assert forall|i: int, md: PluginMetadata|
        0 <= i < running.entries().len() && #[trigger] running.entries()[i].1.reports_metadata(md)
            implies metadata_complete(md) by {
        assert(start.entries()[i].1.reports_metadata(md));
    }
    law_complete_metadata_all_valid(running, r);
    assert(running.registry().dom() == start.registry().dom());
}

proof fn lemma_all_complete(names: Seq<Seq<char>>, ms: Seq<PluginMetadata>)
    requires
        forall|k: int| 0 <= k < ms.len() ==> metadata_complete(#[trigger] ms[k]),
    ensures
        count_complete(ms) == ms.len(),
        validation_errors(names, ms) == Seq::<Seq<char>>::empty(),
    decreases ms.len(),
{
    if ms.len() > 0 {
        let rest = ms.drop_last();
        assert forall|k: int| 0 <= k < rest.len() implies metadata_complete(#[trigger] rest[k]) by {
            assert(rest[k] == ms[k]);
        }
        lemma_all_complete(names, rest);
        assert(metadata_complete(ms[ms.len() - 1]));
    }
}

/// A name that is not registered is reported as `NotFound` both by an
/// install request and by a lookup.
pub proof fn law_missing_name_not_found<P: Plugin>(
    m: PluginManager<P>,
    name: Seq<char>,
    install: Result<String, PluginError>,
    lookup: Result<&P, PluginError>,
)
    requires
        !m.registry().contains_key(name),
        dispatch_checked(m, name, install),
        looked_up(m, name, lookup),
    ensures
        install matches Err(PluginError::NotFound(n)) && n@ == name,
        lookup matches Err(PluginError::NotFound(n)) && n@ == name,
{
}

/// Storing the same setting twice is the same as storing it once: the
/// second store changes nothing and adds no entry.
pub proof fn law_set_setting_idempotent(
    c0: PluginConfig,
    c1: PluginConfig,
    c2: PluginConfig,
    key: Seq<char>,
    value: serde_json::Value,
)
    requires
        setting_stored(c0, c1, key, value),
        setting_stored(c1, c2, key, value),
    ensures
        c2.settings@ == c1.settings@,
        c2.settings@.contains_key(key) && c2.settings@[key] == value,
        c2.settings.entries().len() == c1.settings.entries().len(),
{
    assert(c2.settings@ =~= c1.settings@);
}

} // verus!
