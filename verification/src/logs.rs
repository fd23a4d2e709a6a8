//! Log retrieval.
//!
//! The backend's standard output and standard error are redirected by
//! the host into one log file, `backend.log`, inside the data
//! directory.  `get_logs` hands the file's full contents to the UI;
//! when the file is absent — before any start, or after the directory
//! was cleaned — it deliberately answers with a sentinel text instead
//! of an error, so the UI always has something to show.

use vstd::prelude::*;
use vstd::string::*;

verus! {

/// The sentinel text returned when no log file exists.
pub open spec fn no_logs_sentinel() -> Seq<char> {
    "no logs available"@
}

/// `get_logs`: turns what the host read from the log file into the
/// text shown to the caller.  The file's contents pass through
/// unchanged; an absent file becomes the sentinel text rather than an
/// error.
pub fn logs_text(contents: Option<String>) -> (r: String)
    ensures
        contents matches Some(c) ==> r@ == c@,
        contents is None ==> r@ == no_logs_sentinel(),
{
    match contents {
        Some(c) => c,
        None => String::from_str("no logs available"),
    }
}

} // verus!
