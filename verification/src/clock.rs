//! The wall clock.

use vstd::prelude::*;

verus! {

/// `chrono::Utc::now`, read as whole seconds since the Unix epoch with
/// `DateTime::timestamp`. Nothing is promised of the value: it is whatever
/// the machine's clock says. The clock is taken to stand after the epoch,
/// as `now` itself takes it.
#[verifier::external_body]
pub(crate) fn current_unix_time() -> (seconds: u64) {
    chrono::Utc::now().timestamp() as u64
}

} // verus!
