//! The three kinds of failure a request can end in.

use vstd::prelude::*;

verus! {

/// Why a request was turned down.
#[derive(Debug, Clone, PartialEq, Eq)]
pub enum ServiceError {
    /// A collaborator failed (store, mailer, hashing, signing) or a stored
    /// value that the flow needs was missing. No detail is given out.
    InternalServerError,
    /// The request broke a rule; the text says which.
    BadRequest(String),
    /// The session token was missing, malformed or not accepted.
    Unauthorized(String),
}

/// A `ServiceError` with its text as a sequence of characters.
pub enum ErrorView {
    InternalServerError,
    BadRequest(Seq<char>),
    Unauthorized(Seq<char>),
}

impl View for ServiceError {
    type V = ErrorView;

    open spec fn view(&self) -> ErrorView {
        match self {
            ServiceError::InternalServerError => ErrorView::InternalServerError,
            ServiceError::BadRequest(m) => ErrorView::BadRequest(m@),
            ServiceError::Unauthorized(m) => ErrorView::Unauthorized(m@),
        }
    }
}

/// What a `Result<(), ServiceError>` says, over views.
pub open spec fn unit_outcome(r: Result<(), ServiceError>) -> Result<(), ErrorView> {
    match r {
        Ok(_) => Ok(()),
        Err(e) => Err(e@),
    }
}

/// What a `Result<String, ServiceError>` says, over views.
pub open spec fn text_outcome(r: Result<String, ServiceError>) -> Result<Seq<char>, ErrorView> {
    match r {
        Ok(s) => Ok(s@),
        Err(e) => Err(e@),
    }
}

/// What a `Result<usize, ServiceError>` says, over views.
pub open spec fn index_outcome(r: Result<usize, ServiceError>) -> Result<int, ErrorView> {
    match r {
        Ok(i) => Ok(i as int),
        Err(e) => Err(e@),
    }
}

impl ErrorView {
    /// The status code that the failure is answered with.
    pub open spec fn status_code(self) -> nat {
        match self {
            ErrorView::InternalServerError => 500,
            ErrorView::BadRequest(_) => 400,
            ErrorView::Unauthorized(_) => 401,
        }
    }

    /// The body that the failure is answered with: the bare message, and a
    /// fixed text where no detail may leak.
    pub open spec fn body(self) -> Seq<char> {
        match self {
            ErrorView::InternalServerError => "Internal Server Error"@,
            ErrorView::BadRequest(m) => m,
            ErrorView::Unauthorized(m) => m,
        }
    }

    /// The failure written out for a log line.
    pub open spec fn text(self) -> Seq<char> {
        match self {
            ErrorView::InternalServerError => "Internal Server Error"@,
            ErrorView::BadRequest(m) => "Bad Request: "@ + m,
            ErrorView::Unauthorized(m) => "Unauthorized: "@ + m,
        }
    }
}

impl ServiceError {
    /// A `BadRequest` with the given message.
    pub fn bad_request(message: &str) -> (e: ServiceError)
        ensures
            e@ == ErrorView::BadRequest(message@),
    {
        ServiceError::BadRequest(message.to_owned())
    }

    /// An `Unauthorized` with the given message.
    pub fn unauthorized(message: &str) -> (e: ServiceError)
        ensures
            e@ == ErrorView::Unauthorized(message@),
    {
        ServiceError::Unauthorized(message.to_owned())
    }

    /// 500 for an internal error, 400 for a bad request, 401 for an
    /// unauthorized one.
    pub fn status_code(&self) -> (code: u16)
        ensures
            code == self@.status_code(),
    {
        match self {
            ServiceError::InternalServerError => 500,
            ServiceError::BadRequest(_) => 400,
            ServiceError::Unauthorized(_) => 401,
        }
    }

    /// The response body for this failure.
    pub fn body(&self) -> (text: String)
        ensures
            text@ == self@.body(),
    {
        match self {
            ServiceError::InternalServerError => "Internal Server Error".to_owned(),
            ServiceError::BadRequest(m) => m.clone(),
            ServiceError::Unauthorized(m) => m.clone(),
        }
    }

    /// The failure as one line of text, kind first.
    pub fn message(&self) -> (text: String)
        ensures
            text@ == self@.text(),
    {
        match self {
            ServiceError::InternalServerError => "Internal Server Error".to_owned(),
            ServiceError::BadRequest(m) => {
                let mut text = "Bad Request: ".to_owned();
                text.append(m.as_str());
                text
            },
            ServiceError::Unauthorized(m) => {
                let mut text = "Unauthorized: ".to_owned();
                text.append(m.as_str());
                text
            },
        }
    }
}

} // verus!
