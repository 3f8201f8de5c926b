//! The wall clock.

use crate::app_constants::AppConstants;
use vstd::prelude::*;

verus! {

/// Calls `chrono::Local::now()` and writes the moment out with
/// `DateTime::format`. Trusted: nothing is claimed about the text, which
/// depends on the clock and the time zone of the machine. The layout is
/// fixed to the one the library records, which `chrono` accepts; a layout
/// that `chrono` does not know makes the formatting panic. What is left
/// to go wrong no argument decides: `chrono` gives up on a machine whose
/// clock stands before 1970 or whose time zone cannot be had.
#[verifier::external_body]
pub(crate) fn local_time_text(layout: &str) -> (text: String)
    requires
        layout@ == AppConstants::FETCH_TIME_FORMAT@,
{
    chrono::Local::now().format(layout).to_string()
}

} // verus!
