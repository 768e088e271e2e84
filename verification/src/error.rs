//! The failures that reach the HTTP boundary.

use vstd::prelude::*;
use vstd::string::StringExecFns;

verus! {

/// A failure that is shown to the user.
#[derive(Debug, Clone, PartialEq, Eq)]
pub enum AppError {
    /// The platform has no such resource.
    NotFound,
    /// The platform could not be reached or answered with a failure; the
    /// text is the detail for the log.
    FetchError(String),
    /// The platform's answer could not be read.
    ParseError,
    /// A URL was malformed, or names a host that is not served.
    InvalidUrl,
    /// Anything that went wrong on this side.
    Internal,
}

/// The mathematical value of an `AppError`.
pub ghost enum ErrorView {
    NotFound,
    FetchError(Seq<char>),
    ParseError,
    InvalidUrl,
    Internal,
}

impl View for AppError {
    type V = ErrorView;

    open spec fn view(&self) -> ErrorView {
        match self {
            AppError::NotFound => ErrorView::NotFound,
            AppError::FetchError(detail) => ErrorView::FetchError(detail@),
            AppError::ParseError => ErrorView::ParseError,
            AppError::InvalidUrl => ErrorView::InvalidUrl,
            AppError::Internal => ErrorView::Internal,
        }
    }
}

impl DeepView for AppError {
    type V = ErrorView;

    open spec fn deep_view(&self) -> ErrorView {
        self@
    }
}

/// The mathematical value of what a fallible function returned.
pub open spec fn outcome<T: DeepView>(r: Result<T, AppError>) -> Result<T::V, ErrorView> {
    match r {
        Ok(t) => Ok(t.deep_view()),
        Err(e) => Err(e@),
    }
}

impl ErrorView {
    /// The HTTP status that stands for each failure.
    pub open spec fn status_code(self) -> u16 {
        match self {
            ErrorView::NotFound => 404,
            ErrorView::FetchError(_) => 502,
            ErrorView::ParseError => 502,
            ErrorView::InvalidUrl => 400,
            ErrorView::Internal => 500,
        }
    }

    /// The sentence that describes each failure, with its detail: what goes
    /// to the log.
    pub open spec fn message(self) -> Seq<char> {
        match self {
            ErrorView::FetchError(detail) => "Failed to fetch from TikTok: "@ + detail,
            _ => self.public_message(),
        }
    }

    /// The sentence that describes each failure to the visitor. It says
    /// nothing of why a fetch failed.
    pub open spec fn public_message(self) -> Seq<char> {
        match self {
            ErrorView::NotFound => "TikTok content not found"@,
            ErrorView::FetchError(_) => "Failed to fetch from TikTok"@,
            ErrorView::ParseError => "Failed to parse TikTok response"@,
            ErrorView::InvalidUrl => "Invalid URL format"@,
            ErrorView::Internal => "Internal server error"@,
        }
    }
}

impl AppError {
    /// The HTTP status to answer with.
    pub fn status_code(&self) -> (code: u16)
        ensures
            code == self@.status_code(),
    {
        match self {
            AppError::NotFound => 404,
            AppError::FetchError(_) => 502,
            AppError::ParseError => 502,
            AppError::InvalidUrl => 400,
            AppError::Internal => 500,
        }
    }

    /// The sentence for the log.
    pub fn message(&self) -> (text: String)
        ensures
            text@ == self@.message(),
    {
        match self {
            AppError::FetchError(detail) => "Failed to fetch from TikTok: ".to_owned().concat(
                detail.as_str(),
            ),
            _ => self.public_message(),
        }
    }

    /// The sentence to show to the visitor.
    pub fn public_message(&self) -> (text: String)
        ensures
            text@ == self@.public_message(),
    {
        match self {
            AppError::NotFound => "TikTok content not found".to_owned(),
            AppError::FetchError(_) => "Failed to fetch from TikTok".to_owned(),
            AppError::ParseError => "Failed to parse TikTok response".to_owned(),
            AppError::InvalidUrl => "Invalid URL format".to_owned(),
            AppError::Internal => "Internal server error".to_owned(),
        }
    }
}

} // verus!
