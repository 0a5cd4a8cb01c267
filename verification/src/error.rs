//! The failures an operation can end in.

use vstd::prelude::*;

verus! {

/// The error object that the service sends along with a non-success status.
#[derive(Debug, Clone, PartialEq, Eq)]
pub struct ErrorObject {
    pub message: String,
    pub kind: Option<String>,
    pub param: Option<String>,
    pub code: Option<String>,
}

pub struct ErrorObjectView {
    pub message: Seq<char>,
    pub kind: Option<Seq<char>>,
    pub param: Option<Seq<char>>,
    pub code: Option<Seq<char>>,
}

impl View for ErrorObject {
    type V = ErrorObjectView;

    open spec fn view(&self) -> ErrorObjectView {
        ErrorObjectView {
            message: self.message@,
            kind: self.kind.deep_view(),
            param: self.param.deep_view(),
            code: self.code.deep_view(),
        }
    }
}

/// A reply with a non-success status: the status and the error object in its body.
#[derive(Debug, Clone, PartialEq, Eq)]
pub struct ApiError {
    pub status: u16,
    pub error: ErrorObject,
}

pub struct ApiErrorView {
    pub status: u16,
    pub error: ErrorObjectView,
}

impl ApiErrorView {
    /// The service knows no resource under the address that was asked for.
    pub open spec fn is_not_found(self) -> bool {
        self.status == 404
    }
}

impl View for ApiError {
    type V = ApiErrorView;

    open spec fn view(&self) -> ApiErrorView {
        ApiErrorView { status: self.status, error: self.error@ }
    }
}

impl ApiError {
    /// Whether the service answered that the resource does not exist.
    pub fn is_not_found(&self) -> (found_nothing: bool)
        ensures
            found_nothing == self@.is_not_found(),
    {
        self.status == 404
    }
}

/// Why an operation did not yield its result.
#[derive(Debug, Clone, PartialEq, Eq)]
pub enum OpenAIError {
    /// No response arrived: connecting, resolving the name or waiting failed.
    TransportError(String),
    /// The service answered with a non-success status and an error object.
    ApiError(ApiError),
    /// A body did not have the shape that was expected of it.
    SerializationError(String),
    /// An argument was refused before anything was sent.
    InvalidArgument(String),
}

pub enum OpenAIErrorView {
    TransportError(Seq<char>),
    ApiError(ApiErrorView),
    SerializationError(Seq<char>),
    InvalidArgument(Seq<char>),
}

impl View for OpenAIError {
    type V = OpenAIErrorView;

    open spec fn view(&self) -> OpenAIErrorView {
        match self {
            OpenAIError::TransportError(message) => OpenAIErrorView::TransportError(message@),
            OpenAIError::ApiError(error) => OpenAIErrorView::ApiError(error@),
            OpenAIError::SerializationError(message) => OpenAIErrorView::SerializationError(
                message@,
            ),
            OpenAIError::InvalidArgument(message) => OpenAIErrorView::InvalidArgument(message@),
        }
    }
}

} // verus!
