//! Classification of HTTP status codes, and the message of an API error.

use vstd::prelude::*;

use crate::text::{concat4, decimal, decimal_string};

verus! {

/// Whether a status code is a client error (4xx) or a server error (5xx).
pub open spec fn spec_is_error_status(code: u16) -> bool {
    400 <= code < 600
}

/// Decides whether a response with this status code is turned into an API
/// error: the response is an error exactly when its status is a client
/// error (400-499) or a server error (500-599).
pub fn is_error_status(code: u16) -> (error: bool)
    ensures
        error == spec_is_error_status(code),
{
    let client_error = 400 <= code && code < 500;
    let server_error = 500 <= code && code < 600;
    client_error || server_error
}

/// Every client error (400 to 499) and every server error (500 to 599) is
/// an API error, and no other status is: the informational, success and
/// redirection statuses below 400 pass, and so does anything from 600 on.
pub proof fn law_error_statuses(code: u16)
    ensures
        400 <= code <= 499 ==> spec_is_error_status(code),
        500 <= code <= 599 ==> spec_is_error_status(code),
        code < 400 ==> !spec_is_error_status(code),
        code >= 600 ==> !spec_is_error_status(code),
{
}

/// The message of an API error: `Api Error: `, the status code in decimal,
/// a space and the text of the response.
pub open spec fn spec_api_error_message(status_code: u16, error: Seq<char>) -> Seq<char> {
    "Api Error: "@ + decimal(status_code as nat) + " "@ + error
}

pub fn api_error_message(status_code: u16, error: &str) -> (message: String)
    ensures
        message@ == spec_api_error_message(status_code, error@),
{
    let code = decimal_string(status_code as u128);
    concat4("Api Error: ", code.as_str(), " ", error)
}

} // verus!
