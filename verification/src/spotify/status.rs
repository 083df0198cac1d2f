use crate::text::number::{decimal, decimal_text};
use vstd::prelude::*;

verus! {

/// Whether an HTTP status reports success: the codes from 200 to 299.
pub open spec fn success(status: u16) -> bool {
    200 <= status < 300
}

/// Tells whether an HTTP status reports success.
pub fn is_success(status: u16) -> (ok: bool)
    ensures
        ok == success(status),
{
    200 <= status && status < 300
}

/// The standard reason phrase of an HTTP status, where the code has one.
pub uninterp spec fn reason_phrase(status: u16) -> Option<Seq<char>>;

/// Calls `reqwest::StatusCode::from_u16` and, on the code it gives,
/// `StatusCode::canonical_reason`. Trusted: the result is the standard reason phrase of
/// `status`, and there is none where `status` is no status code or has no phrase.
#[verifier::external_body]
pub(crate) fn canonical_reason(status: u16) -> (phrase: Option<String>)
    ensures
        match phrase {
            Some(p) => reason_phrase(status) == Some(p@),
            None => reason_phrase(status) is None,
        },
{
    match reqwest::StatusCode::from_u16(status) {
        Ok(code) => code.canonical_reason().map(String::from),
        Err(_) => None,
    }
}

/// How a status is shown: the code, then its reason phrase.
pub open spec fn status_line(status: u16) -> Seq<char> {
    decimal(status as nat) + " "@ + match reason_phrase(status) {
        Some(p) => p,
        None => "<unknown status code>"@,
    }
}

/// Writes a status as its code and reason phrase.
pub fn status_text(status: u16) -> (line: String)
    ensures
        line@ == status_line(status),
{
    let mut line = decimal_text(status as u64);
    line.append(" ");
    match canonical_reason(status) {
        Some(p) => {
            line.append(p.as_str());
        },
        None => {
            line.append("<unknown status code>");
        },
    }
    line
}

} // verus!
