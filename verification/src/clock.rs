//! The wall clock, read for measurements that arrive without a timestamp.

use jiff::Error;
use vstd::prelude::*;

verus! {

/// `jiff::Error`, the reason an instant could not be had.
#[verifier::external_type_specification]
#[verifier::external_body]
pub struct ExError(jiff::Error);

/// Reads the system clock and renders the instant as `jiff::Timestamp`
/// prints it: ISO 8601, in UTC.
///
/// Trusted, and nothing is claimed of the outcome: it differs from call to
/// call, and `Timestamp::try_from` refuses a clock set outside the years
/// jiff can represent.
#[verifier::external_body]
pub(crate) fn current_instant() -> Result<String, Error> {
    match jiff::Timestamp::try_from(std::time::SystemTime::now()) {
        Ok(instant) => Ok(instant.to_string()),
        Err(cause) => Err(cause),
    }
}

} // verus!
