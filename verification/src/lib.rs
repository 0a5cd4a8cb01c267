//! A client for the file endpoints of the OpenAI API that performs no I/O.
//!
//! Each operation of [`Files`] describes the HTTP request to send. What the
//! transport reports back is then sorted by [`read`], and the decoded body is
//! turned into the operation's result by [`accept`], [`reject`] or [`text`].
//! Sending the request and decoding JSON are left to the caller.

pub mod error;
pub mod exchange;
pub mod file;
pub mod service;
pub mod types;

pub use error::{ApiError, ErrorObject, OpenAIError};
pub use exchange::{accept, read, reject, text, Method, Payload, Reading, Request, Response};
pub use file::Files;
pub use types::{
    CreateFileRequest, CreateFileRequestArgs, DeleteFileResponse, FileInput, ListFilesResponse,
    OpenAIFile,
};
