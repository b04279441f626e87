//! HTTP status codes, as hyper reads them.
use vstd::prelude::*;

verus! {

/// The status line that hyper prints for `code`: the code and its canonical
/// reason phrase.
pub uninterp spec fn status_line_of(code: u16) -> Seq<char>;

/// Relies on hyper's `StatusCode::from_u16` and `StatusCode::is_success`:
/// the code keeps its number, and it is a success exactly when that number
/// lies in 200..=299.
#[verifier::external_body]
pub(crate) fn is_success_status(code: u16) -> (r: bool)
    ensures
        r == (200 <= code && code <= 299),
{
    hyper::status::StatusCode::from_u16(code).is_success()
}

/// Relies on hyper's `Display` for `StatusCode`, which depends on the code
/// alone.
#[verifier::external_body]
pub(crate) fn status_line(code: u16) -> (r: String)
    ensures
        r@ == status_line_of(code),
{
    format!("{}", hyper::status::StatusCode::from_u16(code))
}

} // verus!
