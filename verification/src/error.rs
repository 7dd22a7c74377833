//! The errors the service answers with, and what each one is answered with.

use vstd::prelude::*;

verus! {

/// A failure reported by the database driver. Opaque: the service never
/// looks inside one, it only decides what to answer.
#[verifier::external_type_specification]
#[verifier::external_body]
pub struct ExSqlxError(sqlx::Error);

/// A failure reported by the template engine. Opaque, like a database error.
#[verifier::external_type_specification]
#[verifier::external_body]
pub struct ExAskamaError(askama::Error);

/// Errors of the JSON API.
pub enum ApiError {
    NotFound,
    BadRequest(String),
    Unauthorized,
    Internal,
}

/// Errors of the HTML pages.
pub enum PageError {
    NotFound,
    BadRequest(String),
    Unauthorized,
    Internal,
}

/// Either kind of error.
pub enum AppError {
    Api(ApiError),
    Page(PageError),
}

impl ApiError {
    /// The HTTP status code that answers this error.
    pub open spec fn spec_status(&self) -> u16 {
        match self {
            ApiError::NotFound => 404,
            ApiError::BadRequest(_) => 400,
            ApiError::Unauthorized => 401,
            ApiError::Internal => 500,
        }
    }

    /// The text carried in the `error` field of the JSON body.
    pub open spec fn spec_message(&self) -> Seq<char> {
        match self {
            ApiError::NotFound => "not found"@,
            ApiError::BadRequest(msg) => msg@,
            ApiError::Unauthorized => "unauthorized"@,
            ApiError::Internal => "internal error"@,
        }
    }

    /// The status code and the message of the response that answers this
    /// error.
    pub fn into_response_parts(self) -> (res: (u16, String))
        ensures
            res.0 == self.spec_status(),
            res.1@ == self.spec_message(),
    {
        match self {
            ApiError::NotFound => (404, String::from_str("not found")),
            ApiError::BadRequest(msg) => (400, msg),
            ApiError::Unauthorized => (401, String::from_str("unauthorized")),
            ApiError::Internal => (500, String::from_str("internal error")),
        }
    }
}

impl PageError {
    /// The HTTP status code that answers this error.
    pub open spec fn spec_status(&self) -> u16 {
        match self {
            PageError::NotFound => 404,
            PageError::BadRequest(_) => 400,
            PageError::Unauthorized => 401,
            PageError::Internal => 500,
        }
    }

    /// The plain-text body of the response.
    pub open spec fn spec_message(&self) -> Seq<char> {
        match self {
            PageError::NotFound => "Page not found"@,
            PageError::BadRequest(msg) => msg@,
            PageError::Unauthorized => "Unauthorized"@,
            PageError::Internal => "Internal server error"@,
        }
    }

    /// The status code and the body of the response that answers this error.
    pub fn into_response_parts(self) -> (res: (u16, String))
        ensures
            res.0 == self.spec_status(),
            res.1@ == self.spec_message(),
    {
        match self {
            PageError::NotFound => (404, String::from_str("Page not found")),
            PageError::BadRequest(msg) => (400, msg),
            PageError::Unauthorized => (401, String::from_str("Unauthorized")),
            PageError::Internal => (500, String::from_str("Internal server error")),
        }
    }
}

/// Each error is answered with its own status: a missing thing with 404, a
/// bad request with 400 and the request's own message, an unauthorized one
/// with 401, an internal failure with 500; the API and the pages agree on
/// the status, and differ only in the wording of their fixed messages.
pub proof fn lemma_errors_answer_with_their_status(msg: String)
    ensures
        ApiError::NotFound.spec_status() == 404 && PageError::NotFound.spec_status() == 404,
        ApiError::BadRequest(msg).spec_status() == 400 && PageError::BadRequest(msg).spec_status() == 400,
        ApiError::Unauthorized.spec_status() == 401 && PageError::Unauthorized.spec_status() == 401,
        ApiError::Internal.spec_status() == 500 && PageError::Internal.spec_status() == 500,
        ApiError::BadRequest(msg).spec_message() == msg@,
        PageError::BadRequest(msg).spec_message() == msg@,
        ApiError::NotFound.spec_message() == "not found"@,
        ApiError::Unauthorized.spec_message() == "unauthorized"@,
        ApiError::Internal.spec_message() == "internal error"@,
        PageError::NotFound.spec_message() == "Page not found"@,
        PageError::Unauthorized.spec_message() == "Unauthorized"@,
        PageError::Internal.spec_message() == "Internal server error"@,
{
}

/// Any database failure is answered as an internal error.
impl From<sqlx::Error> for ApiError {
    fn from(err: sqlx::Error) -> (res: Self) {
        ApiError::Internal
    }
}

impl vstd::std_specs::convert::FromSpecImpl<sqlx::Error> for ApiError {
    open spec fn obeys_from_spec() -> bool {
        true
    }

    open spec fn from_spec(err: sqlx::Error) -> Self {
        ApiError::Internal
    }
}

/// Any database failure is answered as an internal error.
impl From<sqlx::Error> for PageError {
    fn from(err: sqlx::Error) -> (res: Self) {
        PageError::Internal
    }
}

impl vstd::std_specs::convert::FromSpecImpl<sqlx::Error> for PageError {
    open spec fn obeys_from_spec() -> bool {
        true
    }

    open spec fn from_spec(err: sqlx::Error) -> Self {
        PageError::Internal
    }
}

/// A page that fails to render is answered as an internal error.
impl From<askama::Error> for PageError {
    fn from(err: askama::Error) -> (res: Self) {
        PageError::Internal
    }
}

impl vstd::std_specs::convert::FromSpecImpl<askama::Error> for PageError {
    open spec fn obeys_from_spec() -> bool {
        true
    }

    open spec fn from_spec(err: askama::Error) -> Self {
        PageError::Internal
    }
}

} // verus!
