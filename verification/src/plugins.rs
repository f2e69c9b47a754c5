//! The extensibility layer: CLAP plugins, JavaScript scripts and the MCP
//! bridge for AI agents.
use vstd::prelude::*;

use crate::error::CoreError;

verus! {

/// Common interface for all plugin types (CLAP, JS, MCP).
pub trait Plugin {
    /// Unique identifier for the plugin (e.g. "io.phrasedj.echo").
    fn id(&self) -> &str;

    /// Human-readable name.
    fn name(&self) -> &str;

    /// Current version.
    fn version(&self) -> &str;
}

/// Discovery of all local plugins.  No plugin kind is scanned for yet, so
/// discovery always succeeds and finds nothing.
pub fn scan_plugins() -> (res: Result<(), CoreError>)
    ensures
        res is Ok,
{
    Ok(())
}

} // verus!
