use vstd::prelude::*;

verus! {

/// Loads the tools of the configured MCP servers; none are configured, so
/// there is nothing to load.
pub fn load_tools() {
}

} // verus!
