//! Points in time, as chrono holds them.

use vstd::prelude::*;
use chrono::NaiveDateTime;

verus! {

/// chrono's date and time without a time zone. The library carries such
/// values through and looks at nothing inside them.
#[verifier::external_type_specification]
#[verifier::external_body]
pub struct ExNaiveDateTime(NaiveDateTime);

/// The date and time that lies `seconds` seconds after midnight of
/// 1970-01-01, as chrono makes it; `None` where chrono has no date that far
/// from the common era.
pub uninterp spec fn moment_of_seconds(seconds: int) -> Option<NaiveDateTime>;

/// The seconds that a count of milliseconds holds: the count divided by
/// 1000, rounded towards zero.
pub open spec fn seconds_of_millis(millis: int) -> int {
    if millis >= 0 {
        millis / 1000
    } else {
        -((-millis) / 1000)
    }
}

/// The date and time `seconds` seconds after the epoch.
///
/// Trusted: this is chrono's `NaiveDateTime::from_timestamp_opt` with zero
/// nanoseconds. The contract gives its result a name, which claims that the
/// result depends on `seconds` alone, and says that there is a date for
/// every count of seconds up to eight million millions on either side of
/// the epoch: that is some 253,000 years, and chrono holds the years from
/// -262,143 to 262,142. Of counts further out it says nothing.
#[verifier::external_body]
#[allow(deprecated)]
pub(crate) fn moment_from_seconds(seconds: i64) -> (moment: Option<NaiveDateTime>)
    ensures
        moment == moment_of_seconds(seconds as int),
        -8_000_000_000_000 <= seconds <= 8_000_000_000_000 ==> moment is Some,
{
    NaiveDateTime::from_timestamp_opt(seconds, 0)
}

} // verus!
