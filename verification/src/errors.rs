//! What goes wrong while a request is served: a failure of the store, and the
//! body that a caller is given in its place.

use vstd::prelude::*;

verus! {

/// A read that the store could not complete. `cause` is the store's own
/// account of it, kept for the server's log and never sent to a caller.
#[derive(Clone, Debug, PartialEq, Eq)]
pub struct StoreError {
    pub cause: String,
}

/// Body of a reply with status 500: a message for the caller and the moment
/// the failure was reported.
#[derive(Clone, Debug, PartialEq, Eq)]
pub struct InternalServerError {
    pub message: String,
    pub date: String,
}

/// The current time in UTC, written by `chrono::DateTime::to_rfc3339` on the
/// value of `chrono::Utc::now`. The text depends on the clock, so nothing is
/// claimed of it. `Utc::now` panics where the system clock stands before 1970
/// or beyond the dates that chrono can hold.
#[verifier::external_body]
fn utc_now_rfc3339() -> (date: String) {
    chrono::Utc::now().to_rfc3339()
}

impl InternalServerError {
    /// An error body with the given message, dated `date`.
    pub fn at(message: &str, date: String) -> (error: InternalServerError)
        ensures
            error.message@ == message@,
            error.date@ == date@,
    {
        InternalServerError { message: message.to_owned(), date }
    }

    /// An error body with the given message, dated now. The message is taken
    /// as it is; the date is whatever the clock gives.
    pub fn new(message: &str) -> (error: InternalServerError)
        ensures
            error.message@ == message@,
    {
        InternalServerError::at(message, utc_now_rfc3339())
    }
}

} // verus!
