//! The persisted path configuration: two named base directories with
//! built-in defaults, loaded fresh by every operation that needs them.
//!
//! The persistence itself is an external capability; the functions here
//! hold the defaulting and error-mapping rules, taking what the capability
//! returned as a plain value.

use vstd::prelude::*;
use crate::errors::FileError;

verus! {

/// The whole persisted record: the base directory holding numbered tile
/// files and the base directory holding one subfolder per addon. Both are
/// opaque strings, never validated for existence at load time.
#[derive(Debug, Clone, PartialEq, Eq)]
pub struct PathConfig {
    pub tile_root: String,
    pub addon_root: String,
}

/// The built-in default tile root.
pub open spec fn default_tile_root_spec() -> Seq<char> {
    "C:\\Program Files (x86)\\Steam\\steamapps\\common\\Stormworks\\rom"@
}

/// The built-in default addon root.
pub open spec fn default_addon_root_spec() -> Seq<char> {
    "C:\\Program Files (x86)\\Steam\\steamapps\\common\\Stormworks\\rom\\data\\missions"@
}

/// Holds of the record a load must fall back to when nothing is stored.
pub open spec fn is_default(c: PathConfig) -> bool {
    c.tile_root@ == default_tile_root_spec() && c.addon_root@ == default_addon_root_spec()
}

/// What a successful load yields, given what the capability had stored:
/// the stored record itself, or the built-in defaults when none exists.
pub open spec fn loaded_model(stored: Option<PathConfig>, c: PathConfig) -> bool {
    match stored {
        Some(s) => c == s,
        None => is_default(c),
    }
}

impl PathConfig {
    /// Builds the whole record from its two fields, as a save replaces it.
    pub fn new(tile_root: String, addon_root: String) -> (c: PathConfig)
        ensures
            c.tile_root == tile_root,
            c.addon_root == addon_root,
    {
        PathConfig { tile_root, addon_root }
    }
}

/// The built-in default record, returned when no configuration was ever
/// stored.
pub fn default_config() -> (c: PathConfig)
    ensures
        is_default(c),
{
    PathConfig {
        tile_root: String::from_str(
            "C:\\Program Files (x86)\\Steam\\steamapps\\common\\Stormworks\\rom",
        ),
        addon_root: String::from_str(
            "C:\\Program Files (x86)\\Steam\\steamapps\\common\\Stormworks\\rom\\data\\missions",
        ),
    }
}

/// The load rule of the configuration store: an absent record becomes the
/// built-in defaults rather than a failure, a present record is returned
/// unchanged, and a capability failure surfaces as `ConfigLoadFailed` with
/// the underlying message.
pub fn load_result(stored: Result<Option<PathConfig>, String>) -> (r: Result<
    PathConfig,
    FileError,
>)
    ensures
        stored is Ok ==> r is Ok && loaded_model(stored->Ok_0, r->Ok_0),
        stored is Err ==> r is Err && r->Err_0 == FileError::ConfigLoadFailed(stored->Err_0),
{
    match stored {
        Ok(Some(c)) => Ok(c),
        Ok(None) => Ok(default_config()),
        Err(m) => Err(FileError::ConfigLoadFailed(m)),
    }
}

/// The store rule of the configuration store: success passes through, a
/// capability failure surfaces as `ConfigStoreFailed` with the underlying
/// message.
pub fn store_result(outcome: Result<(), String>) -> (r: Result<(), FileError>)
    ensures
        outcome is Ok ==> r is Ok,
        outcome is Err ==> r is Err && r->Err_0 == FileError::ConfigStoreFailed(outcome->Err_0),
{
    match outcome {
        Ok(u) => Ok(u),
        Err(m) => Err(FileError::ConfigStoreFailed(m)),
    }
}

/// A load that finds a stored record returns exactly that record: together
/// with the store capability replacing the whole record, a save of `c`
/// followed by a load yields `c` unchanged.
pub proof fn lemma_config_round_trip(c: PathConfig, loaded: PathConfig)
    requires
        loaded_model(Some(c), loaded),
    ensures
        loaded == c,
{
}

/// A load that finds nothing stored returns the built-in default record.
pub proof fn lemma_load_default(loaded: PathConfig)
    requires
        loaded_model(None, loaded),
    ensures
        is_default(loaded),
{
}

} // verus!
