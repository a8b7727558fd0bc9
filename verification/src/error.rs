use vstd::prelude::*;

use crate::text::{chars_of, contains_infix, has_infix};

verus! {

/// The errors of the scheduler. Errors that come from outside the library (I/O, JSON,
/// the task tracker) carry the outside error's message.
#[derive(Debug)]
pub enum AppError {
    Io(String),
    Json(String),
    InvalidUuid(String),
    InvalidTimeFormat(String),
    InvalidTimeRange,
    SlotNotFound,
    SlotAlreadyBooked,
    Yougile(String),
    Unauthorized,
    Other(String),
}

pub type Result<T> = core::result::Result<T, AppError>;

/// The text of an error, as the error's display writes it.
pub open spec fn error_text(e: AppError) -> Seq<char> {
    match e {
        AppError::Io(m) => "IO error: "@ + m@,
        AppError::Json(m) => "JSON error: "@ + m@,
        AppError::InvalidUuid(m) => "Invalid UUID: "@ + m@,
        AppError::InvalidTimeFormat(m) => "Invalid time format: "@ + m@,
        AppError::InvalidTimeRange => "Invalid time range: start must be before end"@,
        AppError::SlotNotFound => "Slot not found"@,
        AppError::SlotAlreadyBooked => "Slot already booked"@,
        AppError::Yougile(m) => "Yougile error: "@ + m@,
        AppError::Unauthorized => "Unauthorized"@,
        AppError::Other(m) => m@,
    }
}

/// The HTTP status with which the web API answers an error.
pub open spec fn status_of(e: AppError) -> u16 {
    match e {
        AppError::Unauthorized => 401,
        AppError::SlotNotFound => 404,
        AppError::SlotAlreadyBooked => 409,
        AppError::InvalidTimeRange => 400,
        _ => 500,
    }
}

/// The message that the web API shows for an error: the error's own text for the errors
/// a client can act on, and a generic message for internal failures.
pub open spec fn public_message(e: AppError) -> Seq<char> {
    if status_of(e) == 500 {
        "Внутренняя ошибка сервера"@
    } else {
        error_text(e)
    }
}

/// What the standard library's `str::to_lowercase` gives for `s` (full Unicode lower-casing).
pub uninterp spec fn lowercase(s: Seq<char>) -> Seq<char>;

/// Calls the standard library's `str::to_lowercase`; the result is named by `lowercase`.
#[verifier::external_body]
fn to_lowercase(s: &str) -> (r: String)
    ensures
        r@ == lowercase(s@),
{
    s.to_lowercase()
}

/// Whether a lower-cased task-tracker error message reports a failure that retrying
/// cannot mend: an authorization failure, a refused or malformed request, or a missing item.
pub open spec fn fatal_message(lower: Seq<char>) -> bool {
    ||| has_infix(lower, "401"@)
    ||| has_infix(lower, "unauthorized"@)
    ||| has_infix(lower, "403"@)
    ||| has_infix(lower, "forbidden"@)
    ||| has_infix(lower, "400"@)
    ||| has_infix(lower, "bad request"@)
    ||| has_infix(lower, "404"@)
    ||| has_infix(lower, "not found"@)
}

/// Whether an error ends a retry loop at once.
pub open spec fn is_fatal_spec(e: AppError) -> bool {
    match e {
        AppError::Yougile(m) => fatal_message(lowercase(m@)),
        AppError::Other(_) => false,
        _ => true,
    }
}

/// Tells a retry loop whether an error is worth retrying.
pub trait IsFatalError {
    fn is_fatal(&self) -> bool;
}

fn has_needle(hay: &Vec<char>, needle: &str) -> (r: bool)
    ensures
        r == has_infix(hay@, needle@),
{
    let n = chars_of(needle);
    contains_infix(hay, &n)
}

/// Whether a lower-cased task-tracker message reports a failure that retrying cannot mend.
pub fn is_fatal_message(lower: &str) -> (r: bool)
    ensures
        r == fatal_message(lower@),
{
    let hay = chars_of(lower);
    has_needle(&hay, "401") || has_needle(&hay, "unauthorized") || has_needle(&hay, "403")
        || has_needle(&hay, "forbidden") || has_needle(&hay, "400") || has_needle(
        &hay,
        "bad request",
    ) || has_needle(&hay, "404") || has_needle(&hay, "not found")
}

impl IsFatalError for AppError {
    fn is_fatal(&self) -> (r: bool)
        ensures
            r == is_fatal_spec(*self),
    {
        match self {
            AppError::Yougile(msg) => {
                let lower = to_lowercase(msg.as_str());
                is_fatal_message(lower.as_str())
            },
            AppError::Other(_) => false,
            _ => true,
        }
    }
}

fn prefixed(prefix: &str, m: &String) -> (r: String)
    ensures
        r@ == prefix@ + m@,
{
    let mut r = String::from_str(prefix);
    r.append(m.as_str());
    r
}

impl AppError {
    /// The error's text (what its display writes).
    pub fn message(&self) -> (r: String)
        ensures
            r@ == error_text(*self),
    {
        match self {
            AppError::Io(m) => prefixed("IO error: ", m),
            AppError::Json(m) => prefixed("JSON error: ", m),
            AppError::InvalidUuid(m) => prefixed("Invalid UUID: ", m),
            AppError::InvalidTimeFormat(m) => prefixed("Invalid time format: ", m),
            AppError::InvalidTimeRange => String::from_str(
                "Invalid time range: start must be before end",
            ),
            AppError::SlotNotFound => String::from_str("Slot not found"),
            AppError::SlotAlreadyBooked => String::from_str("Slot already booked"),
            AppError::Yougile(m) => prefixed("Yougile error: ", m),
            AppError::Unauthorized => String::from_str("Unauthorized"),
            AppError::Other(m) => m.clone(),
        }
    }

    /// The HTTP status code with which the web API answers this error.
    pub fn status_code(&self) -> (r: u16)
        ensures
            r == status_of(*self),
    {
        match self {
            AppError::Unauthorized => 401,
            AppError::SlotNotFound => 404,
            AppError::SlotAlreadyBooked => 409,
            AppError::InvalidTimeRange => 400,
            _ => 500,
        }
    }

    /// The message that the web API puts in the body of its answer to this error.
    pub fn public_message(&self) -> (r: String)
        ensures
            r@ == public_message(*self),
    {
        if self.status_code() == 500 {
            String::from_str("Внутренняя ошибка сервера")
        } else {
            self.message()
        }
    }
}

} // verus!
