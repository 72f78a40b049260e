//! The error type shared by every layer, with the HTTP status and message each
//! variant is answered with.
use vstd::prelude::*;

verus! {

/// An error answered to a client.
#[derive(Debug, PartialEq, Eq)]
pub enum ApiError {
    BadRequest(String),
    Unauthorized(String),
    Forbidden,
    NotFound(String),
    /// Aggregated input-validation failures.
    Validation(Vec<String>),
    Internal(String),
}

/// An `ApiError` with its texts as character sequences.
pub enum ApiErrorView {
    BadRequest(Seq<char>),
    Unauthorized(Seq<char>),
    Forbidden,
    NotFound(Seq<char>),
    Validation(Seq<Seq<char>>),
    Internal(Seq<char>),
}

/// The texts of a list of strings.
pub open spec fn texts(v: Seq<String>) -> Seq<Seq<char>> {
    v.map_values(|s: String| s@)
}

impl View for ApiError {
    type V = ApiErrorView;

    /// The error with its texts as character sequences.
    open spec fn view(&self) -> ApiErrorView {
        match self {
            ApiError::BadRequest(m) => ApiErrorView::BadRequest(m@),
            ApiError::Unauthorized(m) => ApiErrorView::Unauthorized(m@),
            ApiError::Forbidden => ApiErrorView::Forbidden,
            ApiError::NotFound(m) => ApiErrorView::NotFound(m@),
            ApiError::Validation(errors) => ApiErrorView::Validation(texts(errors@)),
            ApiError::Internal(m) => ApiErrorView::Internal(m@),
        }
    }
}

/// The HTTP status each kind of error is answered with.
pub open spec fn status_of(e: ApiErrorView) -> u16 {
    match e {
        ApiErrorView::BadRequest(_) => 400,
        ApiErrorView::Validation(_) => 400,
        ApiErrorView::Unauthorized(_) => 401,
        ApiErrorView::Forbidden => 403,
        ApiErrorView::NotFound(_) => 404,
        ApiErrorView::Internal(_) => 500,
    }
}

/// The text under `"error"` in the response body.
pub open spec fn message_of(e: ApiErrorView) -> Seq<char> {
    match e {
        ApiErrorView::BadRequest(m) => m,
        ApiErrorView::Unauthorized(m) => m,
        ApiErrorView::Forbidden => "forbidden"@,
        ApiErrorView::NotFound(m) => m,
        ApiErrorView::Validation(_) => "validation failed"@,
        ApiErrorView::Internal(m) => m,
    }
}

impl ApiError {
    /// The HTTP status the error is answered with.
    pub fn status_code(&self) -> (r: u16)
        ensures
            r == status_of(self@),
    {
        match self {
            ApiError::BadRequest(_) | ApiError::Validation(_) => 400,
            ApiError::Unauthorized(_) => 401,
            ApiError::Forbidden => 403,
            ApiError::NotFound(_) => 404,
            ApiError::Internal(_) => 500,
        }
    }

    /// The error's display text.
    pub fn message(&self) -> (r: String)
        ensures
            r@ == message_of(self@),
    {
        match self {
            ApiError::BadRequest(m) => m.clone(),
            ApiError::Unauthorized(m) => m.clone(),
            ApiError::Forbidden => "forbidden".to_string(),
            ApiError::NotFound(m) => m.clone(),
            ApiError::Validation(_) => "validation failed".to_string(),
            ApiError::Internal(m) => m.clone(),
        }
    }

    /// The validation details, present only for `Validation`.
    pub fn details(&self) -> (r: Option<Vec<String>>)
        ensures
            match self@ {
                ApiErrorView::Validation(d) => r matches Some(v) && texts(v@) == d,
                _ => r is None,
            },
    {
        match self {
            ApiError::Validation(errors) => Some(errors.clone()),
            _ => None,
        }
    }
}

} // verus!
