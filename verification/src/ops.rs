//! The verified cores of the outward-facing file-access operations: each
//! takes what the external capabilities returned as plain values and
//! decides the operation's result, including which configured root is
//! consulted and how every failure is typed.

use vstd::prelude::*;
use crate::config::{
    default_addon_root_spec, default_tile_root_spec, load_result, PathConfig,
};
use crate::errors::FileError;
use crate::resolve::{join_spec, resolve_addon, resolve_tile, stem_spec};

verus! {

/// The read-raw-path rule: a successful platform read passes its content
/// through unchanged, a failure surfaces as `IoError` with the underlying
/// message.
pub fn read_result(outcome: Result<String, String>) -> (r: Result<String, FileError>)
    ensures
        outcome is Ok ==> r is Ok && r->Ok_0 == outcome->Ok_0,
        outcome is Err ==> r is Err && r->Err_0 == FileError::IoError(outcome->Err_0),
{
    match outcome {
        Ok(content) => Ok(content),
        Err(m) => Err(FileError::IoError(m)),
    }
}

/// The whole-file-write rule: success passes through, a failure surfaces
/// as `IoError` with the underlying message.
pub fn write_result(outcome: Result<(), String>) -> (r: Result<(), FileError>)
    ensures
        outcome is Ok ==> r is Ok,
        outcome is Err ==> r is Err && r->Err_0 == FileError::IoError(outcome->Err_0),
{
    match outcome {
        Ok(u) => Ok(u),
        Err(m) => Err(FileError::IoError(m)),
    }
}

/// The read-tile core: applies the configuration store's load rule to what
/// the persistence capability returned, then resolves the tile filename
/// against the tile root of the loaded record. Only a failed load fails;
/// the result is the absolute path the operation must then read.
pub fn read_tile_path(stored: Result<Option<PathConfig>, String>, filename: &str) -> (r: Result<
    String,
    FileError,
>)
    ensures
        stored is Err ==> r is Err && r->Err_0 == FileError::ConfigLoadFailed(stored->Err_0),
        stored is Ok && stored->Ok_0 is Some ==> r is Ok && r->Ok_0@ == join_spec(
            stored->Ok_0.unwrap().tile_root@,
            filename@,
        ),
        stored is Ok && stored->Ok_0 is None ==> r is Ok && r->Ok_0@ == join_spec(
            default_tile_root_spec(),
            filename@,
        ),
{
    match load_result(stored) {
        Ok(cfg) => Ok(resolve_tile(cfg.tile_root.as_str(), filename)),
        Err(e) => Err(e),
    }
}

/// The read-addon core: applies the configuration store's load rule, then
/// resolves the addon identifier against the addon root of the loaded
/// record — its stem as the folder, `playlist.xml` as the file. Fails with
/// `ConfigLoadFailed` on a failed load and `NoStem` on an identifier with
/// no usable stem; the result is the absolute path the operation must then
/// read.
pub fn read_addon_path(stored: Result<Option<PathConfig>, String>, folder_name: &str) -> (r:
    Result<String, FileError>)
    ensures
        stored is Err ==> r is Err && r->Err_0 == FileError::ConfigLoadFailed(stored->Err_0),
        stored is Ok && stem_spec(folder_name@).len() == 0 ==> r is Err && r->Err_0
            == FileError::NoStem,
        stored is Ok && stored->Ok_0 is Some && stem_spec(folder_name@).len() > 0 ==> r is Ok
            && r->Ok_0@ == join_spec(
            join_spec(stored->Ok_0.unwrap().addon_root@, stem_spec(folder_name@)),
            "playlist.xml"@,
        ),
        stored is Ok && stored->Ok_0 is None && stem_spec(folder_name@).len() > 0 ==> r is Ok
            && r->Ok_0@ == join_spec(
            join_spec(default_addon_root_spec(), stem_spec(folder_name@)),
            "playlist.xml"@,
        ),
{
    match load_result(stored) {
        Ok(cfg) => resolve_addon(cfg.addon_root.as_str(), folder_name),
        Err(e) => Err(e),
    }
}

} // verus!
