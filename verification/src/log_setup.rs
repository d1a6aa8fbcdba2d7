//! How much is logged.

use vstd::prelude::*;

verus! {

/// What to set the filter of the log to. A filter that the environment sets is left alone;
/// otherwise only this crate is logged, down to the debug level.
pub fn default_filter(is_set: bool) -> (filter: Option<String>)
    ensures
        is_set ==> filter is None,
        !is_set ==> (filter matches Some(text) && text@ == "none,ytdlp_gui=debug"@),
{
    if is_set {
        None
    } else {
        Some(String::from_str("none,ytdlp_gui=debug"))
    }
}

} // verus!
