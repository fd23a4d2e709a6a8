//! Resolution of the data directory and the names derived from it.
//!
//! The data directory is chosen once per `start` call: the caller's
//! argument wins, else a default the host configured, else a hardcoded
//! fallback.  It holds the one log file, `backend.log`, and is handed
//! to the backend as its data directory argument.

use vstd::prelude::*;
use vstd::string::*;

verus! {

/// The hardcoded fallback when neither the caller nor the host names a
/// data directory.
pub open spec fn fallback_data_dir() -> Seq<char> {
    "./data"@
}

/// The name of the log file inside the data directory.
pub open spec fn log_file_name_spec() -> Seq<char> {
    "backend.log"@
}

/// Picks the effective data directory for one `start` call: the
/// caller's argument if given, else the host's configured default,
/// else the hardcoded fallback.
pub fn resolve_data_dir(argument: Option<String>, host_default: Option<String>) -> (r: String)
    ensures
        argument matches Some(a) ==> r@ == a@,
        argument is None ==> (host_default matches Some(d) ==> r@ == d@),
        argument is None && host_default is None ==> r@ == fallback_data_dir(),
{
    match argument {
        Some(a) => a,
        None => match host_default {
            Some(d) => d,
            None => String::from_str("./data"),
        },
    }
}

/// The file under the data directory that captures the backend's
/// standard output and standard error.
pub fn log_file_name() -> (r: &'static str)
    ensures
        r@ == log_file_name_spec(),
{
    "backend.log"
}

} // verus!
