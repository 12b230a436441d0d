//! Lifecycle management for named, pluggable tool adapters and the project
//! configuration that describes them.
use vstd::prelude::*;

pub mod config;
pub mod manager;
pub mod external;
pub mod laws;
pub mod strmap;
pub mod traits;

pub use config::{PluginConfig, ProjectConfig, Timestamp};
pub use manager::PluginManager;
pub use traits::{Plugin, PluginError, PluginMetadata};

verus! {

/// A manager with an empty registry and the default configuration created
/// at `now`, as `PluginManager::new` makes it.
pub fn init_default<P: Plugin>(now: Timestamp) -> (r: Result<PluginManager<P>, PluginError>)
    ensures
        r matches Ok(m) && m.registry() == Map::<Seq<char>, P>::empty() && m.entries().len() == 0
            && m.project_config().project.name@ == "default"@
            && m.project_config().project.root_path@ == "."@
            && m.project_config().project.created_at == now,
{
    PluginManager::new(now)
}

} // verus!
