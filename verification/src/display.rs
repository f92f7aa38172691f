//! The one line of text that tells the user how the fetch ended.

use vstd::prelude::*;
use vstd::string::*;
use crate::decimal::{fixed_text, format_fixed};
use crate::outcome::{CoordinateResult, Outcome};

verus! {

/// What stands before the latitude.
pub const LATITUDE_LABEL: &'static str = "Latitude: ";

/// What stands between the latitude and the longitude.
pub const LONGITUDE_LABEL: &'static str = ", Longitude: ";

/// What stands before the reason of a failure.
pub const FAILURE_LABEL: &'static str = "Erro: ";

/// The line for a pair of coordinates whose decimal texts are given.
pub open spec fn coordinates_line(latitude: Seq<char>, longitude: Seq<char>) -> Seq<char> {
    LATITUDE_LABEL@ + latitude + LONGITUDE_LABEL@ + longitude
}

/// The line for a failure with the given reason.
pub open spec fn failure_line(reason: Seq<char>) -> Seq<char> {
    FAILURE_LABEL@ + reason
}

/// The line shown for a result: both coordinates with four decimals, or the
/// reason of the failure word for word.
pub open spec fn display_line(outcome: Outcome) -> Seq<char> {
    match outcome {
        Outcome::Success { latitude, longitude } => coordinates_line(
            fixed_text(latitude),
            fixed_text(longitude),
        ),
        Outcome::Failure { reason } => failure_line(reason),
    }
}

/// The line for a pair of coordinates whose decimal texts are given.
pub fn coordinates_text(latitude: &str, longitude: &str) -> (line: String)
    ensures
        line@ == coordinates_line(latitude@, longitude@),
{
    let mut line = String::from_str(LATITUDE_LABEL);
    line.append(latitude);
    line.append(LONGITUDE_LABEL);
    line.append(longitude);
    line
}

/// The line for a failure with the given reason.
pub fn failure_text(reason: &str) -> (line: String)
    ensures
        line@ == failure_line(reason@),
{
    let mut line = String::from_str(FAILURE_LABEL);
    line.append(reason);
    line
}

/// The line shown for a result: both coordinates with four decimals, or the
/// reason of the failure word for word.
pub fn display_text(result: &CoordinateResult) -> (line: String)
    ensures
        line@ == display_line(result@),
{
    match result {
        CoordinateResult::Success { latitude, longitude } => {
            let latitude_text = format_fixed(*latitude);
            let longitude_text = format_fixed(*longitude);
            coordinates_text(latitude_text.as_str(), longitude_text.as_str())
        },
        CoordinateResult::Failure { reason } => failure_text(reason.as_str()),
    }
}

} // verus!
