//! Response status codes of the `http` crate.
//!
//! The functions of `http` that are used here are not verified: their contracts are taken on
//! trust.

use crate::text::decimal;
use vstd::prelude::*;

verus! {

/// `http::StatusCode`, whose number is given by [`status_number`].
#[verifier::external_type_specification]
#[verifier::external_body]
pub struct ExStatusCode(http::StatusCode);

/// The number of a status code.
pub uninterp spec fn status_number(status: http::StatusCode) -> u16;

/// The reason phrase that `http` lists for a status number, where it lists one.
pub uninterp spec fn reason_phrase(number: u16) -> Option<Seq<char>>;

/// A status as it is shown: its number, a blank and its reason phrase.
pub open spec fn status_line(number: u16, reason: Option<Seq<char>>) -> Seq<char> {
    decimal(number as nat) + " "@ + match reason {
        Some(phrase) => phrase,
        None => "<unknown status code>"@,
    }
}

/// A status code as it is shown.
pub open spec fn shown_status(status: http::StatusCode) -> Seq<char> {
    status_line(status_number(status), reason_phrase(status_number(status)))
}

/// The numbers of the statuses that report success.
pub open spec fn is_success_number(number: u16) -> bool {
    200 <= number < 300
}

/// `http::StatusCode::as_u16`: the status number.
pub assume_specification[ http::StatusCode::as_u16 ](status: &http::StatusCode) -> (number: u16)
    ensures
        number == status_number(*status),
;

/// `http::StatusCode::is_success`: whether the status number is one of 200 to 299.
pub assume_specification[ http::StatusCode::is_success ](status: &http::StatusCode) -> (r: bool)
    ensures
        r == is_success_number(status_number(*status)),
;

/// `Display` of `http::StatusCode`: the status number and the phrase that
/// `http::StatusCode::canonical_reason` lists for it.
#[verifier::external_body]
pub(crate) fn status_text(status: &http::StatusCode) -> (text: String)
    ensures
        text@ == status_line(status_number(*status), reason_phrase(status_number(*status))),
{
    status.to_string()
}

/// A status code is shown as its number, a blank and the phrase that is listed for that number;
/// exactly the numbers from 200 up to 299 report success.
pub proof fn status_is_number_and_phrase(status: http::StatusCode)
    ensures
        reason_phrase(status_number(status)) matches Some(phrase) ==> shown_status(status)
            == decimal(status_number(status) as nat) + " "@ + phrase,
        reason_phrase(status_number(status)) is None ==> shown_status(status) == decimal(
            status_number(status) as nat,
        ) + " "@ + "<unknown status code>"@,
        is_success_number(status_number(status)) <==> 200 <= status_number(status) <= 299,
{
}

} // verus!
