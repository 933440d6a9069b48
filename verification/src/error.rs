//! The errors that requests end in, and how each is answered.

use vstd::prelude::*;
use crate::text::{push_decimal, push_str, decimal};

verus! {

/// An error that ends a request.
#[derive(Debug)]
pub enum AppError {
    NotFound(String),
    Unauthorized(String),
    BadRequest(String),
    Conflict(String),
    Forbidden(String),
    InternalServerError(String),
    ServiceUnavailable(String),
    /// The message and the number of seconds after which to retry.
    TooManyRequests(String, u64),
}

/// An error as a mathematical value.
pub enum ErrorView {
    NotFound(Seq<char>),
    Unauthorized(Seq<char>),
    BadRequest(Seq<char>),
    Conflict(Seq<char>),
    Forbidden(Seq<char>),
    InternalServerError(Seq<char>),
    ServiceUnavailable(Seq<char>),
    TooManyRequests(Seq<char>, u64),
}

impl View for AppError {
    type V = ErrorView;

    open spec fn view(&self) -> ErrorView {
        match self {
            AppError::NotFound(m) => ErrorView::NotFound(m@),
            AppError::Unauthorized(m) => ErrorView::Unauthorized(m@),
            AppError::BadRequest(m) => ErrorView::BadRequest(m@),
            AppError::Conflict(m) => ErrorView::Conflict(m@),
            AppError::Forbidden(m) => ErrorView::Forbidden(m@),
            AppError::InternalServerError(m) => ErrorView::InternalServerError(m@),
            AppError::ServiceUnavailable(m) => ErrorView::ServiceUnavailable(m@),
            AppError::TooManyRequests(m, s) => ErrorView::TooManyRequests(m@, *s),
        }
    }
}

/// The HTTP status of each kind of error.
pub open spec fn status_of(e: ErrorView) -> u16 {
    match e {
        ErrorView::NotFound(_) => 404,
        ErrorView::Unauthorized(_) => 401,
        ErrorView::BadRequest(_) => 400,
        ErrorView::Conflict(_) => 409,
        ErrorView::Forbidden(_) => 403,
        ErrorView::InternalServerError(_) => 500,
        ErrorView::ServiceUnavailable(_) => 503,
        ErrorView::TooManyRequests(_, _) => 429,
    }
}

/// The message carried by an error.
pub open spec fn message_of(e: ErrorView) -> Seq<char> {
    match e {
        ErrorView::NotFound(m) => m,
        ErrorView::Unauthorized(m) => m,
        ErrorView::BadRequest(m) => m,
        ErrorView::Conflict(m) => m,
        ErrorView::Forbidden(m) => m,
        ErrorView::InternalServerError(m) => m,
        ErrorView::ServiceUnavailable(m) => m,
        ErrorView::TooManyRequests(m, _) => m,
    }
}

/// The words before the message when an error is shown to a person.
pub open spec fn label_of(e: ErrorView) -> Seq<char> {
    match e {
        ErrorView::NotFound(_) => "Not found: "@,
        ErrorView::Unauthorized(_) => "Unauthorized: "@,
        ErrorView::BadRequest(_) => "Bad request: "@,
        ErrorView::Conflict(_) => "Conflict: "@,
        ErrorView::Forbidden(_) => "Forbidden: "@,
        ErrorView::InternalServerError(_) => "Internal server error: "@,
        ErrorView::ServiceUnavailable(_) => "Service unavailable: "@,
        ErrorView::TooManyRequests(_, _) => "Too many requests: "@,
    }
}

impl AppError {
    /// The HTTP status code of the response.
    pub fn status_code(&self) -> (code: u16)
        ensures
            code == status_of(self@),
    {
        match self {
            AppError::NotFound(_) => 404,
            AppError::Unauthorized(_) => 401,
            AppError::BadRequest(_) => 400,
            AppError::Conflict(_) => 409,
            AppError::Forbidden(_) => 403,
            AppError::InternalServerError(_) => 500,
            AppError::ServiceUnavailable(_) => 503,
            AppError::TooManyRequests(_, _) => 429,
        }
    }

    /// The message sent in the response body.
    pub fn message(&self) -> (m: &str)
        ensures
            m@ == message_of(self@),
    {
        match self {
            AppError::NotFound(m) => m.as_str(),
            AppError::Unauthorized(m) => m.as_str(),
            AppError::BadRequest(m) => m.as_str(),
            AppError::Conflict(m) => m.as_str(),
            AppError::Forbidden(m) => m.as_str(),
            AppError::InternalServerError(m) => m.as_str(),
            AppError::ServiceUnavailable(m) => m.as_str(),
            AppError::TooManyRequests(m, _) => m.as_str(),
        }
    }

    /// The value of the `Retry-After` header: only a refused burst has one.
    pub fn retry_after(&self) -> (r: Option<u64>)
        ensures
            r == (match self@ {
                ErrorView::TooManyRequests(_, s) => Some(s),
                _ => None,
            }),
    {
        match self {
            AppError::TooManyRequests(_, secs) => Some(*secs),
            _ => None,
        }
    }

    /// The `Retry-After` header's text.
    pub fn retry_after_header(&self) -> (r: Option<String>)
        ensures
            r is Some <==> self@ is TooManyRequests,
            r is Some ==> r->0@ == decimal(self@->TooManyRequests_1 as nat),
    {
        match self.retry_after() {
            Some(secs) => Some(crate::text::u64_to_decimal(secs)),
            None => None,
        }
    }

    /// The error as shown to a person: its kind, then its message.
    pub fn to_display_string(&self) -> (s: String)
        ensures
            s@ == label_of(self@) + message_of(self@),
    {
        let mut s = match self {
            AppError::NotFound(_) => "Not found: ".to_owned(),
            AppError::Unauthorized(_) => "Unauthorized: ".to_owned(),
            AppError::BadRequest(_) => "Bad request: ".to_owned(),
            AppError::Conflict(_) => "Conflict: ".to_owned(),
            AppError::Forbidden(_) => "Forbidden: ".to_owned(),
            AppError::InternalServerError(_) => "Internal server error: ".to_owned(),
            AppError::ServiceUnavailable(_) => "Service unavailable: ".to_owned(),
            AppError::TooManyRequests(_, _) => "Too many requests: ".to_owned(),
        };
        push_str(&mut s, self.message());
        s
    }
}

/// Builds an error of one kind with a message copied from a slice.
pub(crate) fn bad_request(m: &str) -> (e: AppError)
    ensures
        e@ == ErrorView::BadRequest(m@),
{
    AppError::BadRequest(m.to_owned())
}

pub(crate) fn conflict(m: &str) -> (e: AppError)
    ensures
        e@ == ErrorView::Conflict(m@),
{
    AppError::Conflict(m.to_owned())
}

pub(crate) fn forbidden(m: &str) -> (e: AppError)
    ensures
        e@ == ErrorView::Forbidden(m@),
{
    AppError::Forbidden(m.to_owned())
}

pub(crate) fn not_found(m: &str) -> (e: AppError)
    ensures
        e@ == ErrorView::NotFound(m@),
{
    AppError::NotFound(m.to_owned())
}

pub(crate) fn internal_error(m: &str) -> (e: AppError)
    ensures
        e@ == ErrorView::InternalServerError(m@),
{
    AppError::InternalServerError(m.to_owned())
}

pub(crate) fn unauthorized(m: &str) -> (e: AppError)
    ensures
        e@ == ErrorView::Unauthorized(m@),
{
    AppError::Unauthorized(m.to_owned())
}

} // verus!
