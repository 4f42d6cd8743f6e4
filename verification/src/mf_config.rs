//! Process-level configuration read from the run's configuration file.

use vstd::prelude::*;

verus! {

/// Where plugins and data live on disk; filled in by the configuration
/// adapter.
pub struct MFConfig {
    pub python_plugin_directories: Vec<String>,
    pub data_directories: Vec<String>,
}

} // verus!
