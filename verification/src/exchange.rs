//! Requests as they are handed to a transport, and the reading of what comes back.

use crate::error::{
    ApiError, ApiErrorView, ErrorObject, ErrorObjectView, OpenAIError, OpenAIErrorView,
};
use crate::types::{CreateFileRequest, CreateFileRequestView};
use vstd::prelude::*;
use vstd::utf8::*;

verus! {

/// The HTTP methods that the file endpoints take.
#[derive(Debug, Clone, Copy, PartialEq, Eq, Structural)]
pub enum Method {
    Get,
    Post,
    Delete,
}

/// What a request carries besides its method and path.
#[derive(Debug, Clone, Copy)]
pub enum Payload<'a> {
    /// Nothing.
    Empty,
    /// Key-value pairs for the query string, in the order given.
    Query(&'a Vec<(String, String)>),
    /// An upload, to be sent as multipart form data.
    Form(&'a CreateFileRequest),
}

pub enum PayloadView {
    Empty,
    Query(Seq<(Seq<char>, Seq<char>)>),
    Form(CreateFileRequestView),
}

impl<'a> View for Payload<'a> {
    type V = PayloadView;

    open spec fn view(&self) -> PayloadView {
        match self {
            Payload::Empty => PayloadView::Empty,
            Payload::Query(pairs) => PayloadView::Query(pairs.deep_view()),
            Payload::Form(upload) => PayloadView::Form(upload@),
        }
    }
}

/// One HTTP request. The path is relative to the base URL that the transport is set up with.
#[derive(Debug, Clone)]
pub struct Request<'a> {
    pub method: Method,
    pub path: String,
    pub payload: Payload<'a>,
}

pub struct RequestView {
    pub method: Method,
    pub path: Seq<char>,
    pub payload: PayloadView,
}

impl<'a> View for Request<'a> {
    type V = RequestView;

    open spec fn view(&self) -> RequestView {
        RequestView { method: self.method, path: self.path@, payload: self.payload@ }
    }
}

/// One HTTP response: its status code and its body as it arrived.
#[derive(Debug, Clone, PartialEq, Eq)]
pub struct Response {
    pub status: u16,
    pub body: Vec<u8>,
}

/// Whether a status code reports success.
pub open spec fn is_success(status: u16) -> bool {
    200 <= status <= 299
}

/// What is left to do with the outcome of an exchange.
#[derive(Debug, Clone, PartialEq, Eq)]
pub enum Reading {
    /// No response arrived. The operation ends in this error.
    Failed(OpenAIError),
    /// The service reported success. The body holds the operation's payload.
    Accepted(Vec<u8>),
    /// The service reported a failure. The body holds an error object.
    Rejected { status: u16, body: Vec<u8> },
}

pub enum ReadingView {
    Failed(OpenAIErrorView),
    Accepted(Seq<u8>),
    Rejected { status: u16, body: Seq<u8> },
}

impl View for Reading {
    type V = ReadingView;

    open spec fn view(&self) -> ReadingView {
        match self {
            Reading::Failed(error) => ReadingView::Failed(error@),
            Reading::Accepted(body) => ReadingView::Accepted(body@),
            Reading::Rejected { status, body } => ReadingView::Rejected {
                status: *status,
                body: body@,
            },
        }
    }
}

/// How a response with the given status and body is to be read.
pub open spec fn reading_of(status: u16, body: Seq<u8>) -> ReadingView {
    if is_success(status) {
        ReadingView::Accepted(body)
    } else {
        ReadingView::Rejected { status, body }
    }
}

/// Sorts the outcome of an exchange. `outcome` is the response, or the transport's
/// account of why none arrived.
pub fn read(outcome: Result<Response, String>) -> (reading: Reading)
    ensures
        reading@ == match outcome {
            Ok(response) => reading_of(response.status, response.body@),
            Err(message) => ReadingView::Failed(OpenAIErrorView::TransportError(message@)),
        },
{
    match outcome {
        Ok(response) => {
            if 200 <= response.status && response.status <= 299 {
                Reading::Accepted(response.body)
            } else {
                Reading::Rejected { status: response.status, body: response.body }
            }
        },
        Err(message) => Reading::Failed(OpenAIError::TransportError(message)),
    }
}

/// The result of an operation whose reply was accepted. `decoded` is the payload
/// read from the body, or the decoder's account of why the body does not hold one.
pub fn accept<T>(decoded: Result<T, String>) -> (result: Result<T, OpenAIError>)
    ensures
        match decoded {
            Ok(payload) => result == Ok::<T, OpenAIError>(payload),
            Err(message) => result matches Err(error) && error@
                == OpenAIErrorView::SerializationError(message@),
        },
{
    match decoded {
        Ok(payload) => Ok(payload),
        Err(message) => Err(OpenAIError::SerializationError(message)),
    }
}

/// The error that a reply rejected with `status` ends in, given the error object in
/// its body, or why the body holds none.
pub open spec fn rejection(
    status: u16,
    decoded: Result<ErrorObjectView, Seq<char>>,
) -> OpenAIErrorView {
    match decoded {
        Ok(object) => OpenAIErrorView::ApiError(ApiErrorView { status, error: object }),
        Err(message) => OpenAIErrorView::SerializationError(message),
    }
}

/// The error of an operation whose reply was rejected with `status`. `decoded` is the
/// error object read from the body, or the decoder's account of why the body does not
/// hold one.
pub fn reject(status: u16, decoded: Result<ErrorObject, String>) -> (error: OpenAIError)
    ensures
        error@ == rejection(
            status,
            match decoded {
                Ok(object) => Ok(object@),
                Err(message) => Err(message@),
            },
        ),
{
    match decoded {
        Ok(object) => OpenAIError::ApiError(ApiError { status, error: object }),
        Err(message) => OpenAIError::SerializationError(message),
    }
}

/// `String::from_utf8` of std. It returns `Ok` exactly when the bytes are well-formed
/// UTF-8, and the string then consists of those very bytes. On ill-formed bytes it
/// returns an error, whose description is handed on as it is.
#[verifier::external_body]
fn string_from_utf8(bytes: Vec<u8>) -> (decoded: Result<String, String>)
    ensures
        decoded is Ok <==> valid_utf8(bytes@),
        decoded matches Ok(text) ==> encode_utf8(text@) == bytes@,
{
    match String::from_utf8(bytes) {
        Ok(text) => Ok(text),
        Err(error) => Err(error.to_string()),
    }
}

/// The text that a body holds: its bytes decoded as UTF-8, if they are well-formed.
pub open spec fn text_of(body: Seq<u8>) -> Option<Seq<char>> {
    if valid_utf8(body) {
        Some(decode_utf8(body))
    } else {
        None
    }
}

/// The content of a file, read as text from the body of an accepted reply. The text has
/// exactly the bytes of the body. A body that is not well-formed UTF-8 is no text.
pub fn text(body: Vec<u8>) -> (result: Result<String, OpenAIError>)
    ensures
        match result {
            Ok(content) => text_of(body@) == Some(content@) && encode_utf8(content@) == body@,
            Err(error) => text_of(body@) is None && error@ is SerializationError,
        },
{
    match string_from_utf8(body) {
        Ok(content) => {
            proof {
                encode_utf8_decode_utf8(content@);
            }
            Ok(content)
        },
        Err(message) => Err(OpenAIError::SerializationError(message)),
    }
}

} // verus!
