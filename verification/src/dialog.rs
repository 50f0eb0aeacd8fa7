//! The interactive file-picker adapter: what one invocation of the
//! external blocking dialog capability yields, and the fixed filter every
//! dialog of this backend is opened with.
//!
//! The dialog itself is shown by the surrounding application; its outcome
//! enters the library as a plain value.

use vstd::prelude::*;
use crate::errors::FileError;

verus! {

/// One invocation's outcome: the absolute path the user selected, or the
/// marker that the dialog was dismissed. Never persisted.
#[derive(Debug, Clone, PartialEq, Eq)]
pub enum DialogOutcome {
    Selected(String),
    Cancelled,
}

/// The fixed advisory filter label every dialog is opened with.
pub fn json_filter_label() -> (r: String)
    ensures
        r@ == "JSON file"@,
{
    String::from_str("JSON file")
}

/// The fixed advisory filter extension every dialog is opened with.
pub fn json_filter_extension() -> (r: String)
    ensures
        r@ == "json"@,
{
    String::from_str("json")
}

/// The decision both interactive operations share: a dismissed dialog
/// surfaces as `DialogCancelled`, so no file I/O is ever attempted for it;
/// a selected path is handed on for the actual read or write.
pub fn picked_path(outcome: DialogOutcome) -> (r: Result<String, FileError>)
    ensures
        outcome is Cancelled ==> r is Err && r->Err_0 == FileError::DialogCancelled,
        outcome is Selected ==> r is Ok && r->Ok_0 == outcome->Selected_0,
{
    match outcome {
        DialogOutcome::Selected(p) => Ok(p),
        DialogOutcome::Cancelled => Err(FileError::DialogCancelled),
    }
}

} // verus!
