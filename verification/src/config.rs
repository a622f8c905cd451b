//! The settings that the code writers read.
use vstd::prelude::*;
use crate::version::Version;

verus! {

/// Generator settings.
pub struct Config {
    /// Revision of the gir-files the bindings are generated from.
    pub girs_version: String,
    /// Path of the file that records the generator's version once, where
    /// one is configured; then each generated file carries no version.
    pub single_version_file: Option<String>,
    /// The oldest library version supported unconditionally: items of this
    /// version or an earlier one get no feature gate.
    pub min_cfg_version: Version,
}

/// One set of derives to put on a generated type, possibly under a cfg
/// condition.
pub struct Derive {
    /// Names of the traits to derive.
    pub names: Vec<String>,
    /// The condition under which the traits are derived, if any.
    pub cfg_condition: Option<String>,
}

} // verus!
