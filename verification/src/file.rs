//! The five operations on files.

use crate::error::{OpenAIError, OpenAIErrorView};
use crate::exchange::{Method, Payload, PayloadView, Request, RequestView};
use crate::types::{CreateFileRequest, CreateFileRequestView};
use vstd::prelude::*;

verus! {

/// The path of the collection of files.
pub open spec fn files_path() -> Seq<char> {
    "/files"@
}

/// The path of the file with the given identifier.
pub open spec fn file_path(file_id: Seq<char>) -> Seq<char> {
    "/files/"@ + file_id
}

/// The path of the content of the file with the given identifier.
pub open spec fn content_path(file_id: Seq<char>) -> Seq<char> {
    file_path(file_id) + "/content"@
}

/// What is said of an identifier that cannot name a file.
pub open spec fn empty_id_message() -> Seq<char> {
    "file_id must not be empty"@
}

/// The request that uploads a file.
pub open spec fn create_request(upload: CreateFileRequestView) -> RequestView {
    RequestView { method: Method::Post, path: files_path(), payload: PayloadView::Form(upload) }
}

/// The request that lists the files that match a query.
pub open spec fn list_request(query: Seq<(Seq<char>, Seq<char>)>) -> RequestView {
    RequestView { method: Method::Get, path: files_path(), payload: PayloadView::Query(query) }
}

/// The request with `method` on `path`, for an identifier that may name a file.
pub open spec fn id_request(file_id: Seq<char>, method: Method, path: Seq<char>) -> Result<
    RequestView,
    OpenAIErrorView,
> {
    if file_id.len() == 0 {
        Err(OpenAIErrorView::InvalidArgument(empty_id_message()))
    } else {
        Ok(RequestView { method, path, payload: PayloadView::Empty })
    }
}

/// The request that fetches the record of a file.
pub open spec fn retrieve_request(file_id: Seq<char>) -> Result<RequestView, OpenAIErrorView> {
    id_request(file_id, Method::Get, file_path(file_id))
}

/// The request that deletes a file.
pub open spec fn delete_request(file_id: Seq<char>) -> Result<RequestView, OpenAIErrorView> {
    id_request(file_id, Method::Delete, file_path(file_id))
}

/// The request that fetches the content of a file.
pub open spec fn retrieve_content_request(file_id: Seq<char>) -> Result<
    RequestView,
    OpenAIErrorView,
> {
    id_request(file_id, Method::Get, content_path(file_id))
}

/// Whether `request` is what `expected` asks for.
pub open spec fn describes(
    request: Result<Request<'_>, OpenAIError>,
    expected: Result<RequestView, OpenAIErrorView>,
) -> bool {
    match request {
        Ok(request) => expected == Ok::<RequestView, OpenAIErrorView>(request@),
        Err(error) => expected == Err::<RequestView, OpenAIErrorView>(error@),
    }
}

/// Files are used to upload documents that can be used with features like
/// fine-tuning. A `Files` borrows the client that will carry its requests.
pub struct Files<'c, C> {
    client: &'c C,
}

impl<'c, C> Files<'c, C> {
    /// The client that was given to [`Files::new`].
    pub closed spec fn spec_client(&self) -> &'c C {
        self.client
    }

    pub fn new(client: &'c C) -> (files: Self)
        ensures
            files.spec_client() == client,
    {
        Files { client }
    }

    #[verifier::when_used_as_spec(spec_client)]
    pub fn client(&self) -> (client: &'c C)
        ensures
            client == self.spec_client(),
    {
        self.client
    }

    /// Upload a file.
    pub fn create<'a>(&self, request: &'a CreateFileRequest) -> (sent: Request<'a>)
        ensures
            sent@ == create_request(request@),
    {
        Request {
            method: Method::Post,
            path: String::from_str("/files"),
            payload: Payload::Form(request),
        }
    }

    /// Returns a list of files, one page of them, that match the query.
    pub fn list<'a>(&self, query: &'a Vec<(String, String)>) -> (sent: Request<'a>)
        ensures
            sent@ == list_request(query.deep_view()),
    {
        Request {
            method: Method::Get,
            path: String::from_str("/files"),
            payload: Payload::Query(query),
        }
    }

    /// Returns information about a specific file.
    pub fn retrieve(&self, file_id: &str) -> (sent: Result<Request<'static>, OpenAIError>)
        ensures
            describes(sent, retrieve_request(file_id@)),
    {
        if file_id.is_empty() {
            return Err(empty_id());
        }
        Ok(Request { method: Method::Get, path: path_of(file_id), payload: Payload::Empty })
    }

    /// Delete a file.
    pub fn delete(&self, file_id: &str) -> (sent: Result<Request<'static>, OpenAIError>)
        ensures
            describes(sent, delete_request(file_id@)),
    {
        if file_id.is_empty() {
            return Err(empty_id());
        }
        Ok(Request { method: Method::Delete, path: path_of(file_id), payload: Payload::Empty })
    }

    /// Returns the contents of the specified file.
    pub fn retrieve_content(&self, file_id: &str) -> (sent: Result<
        Request<'static>,
        OpenAIError,
    >)
        ensures
            describes(sent, retrieve_content_request(file_id@)),
    {
        if file_id.is_empty() {
            return Err(empty_id());
        }
        let mut path = path_of(file_id);
        path.append("/content");
        Ok(Request { method: Method::Get, path, payload: Payload::Empty })
    }
}

fn path_of(file_id: &str) -> (path: String)
    ensures
        path@ == file_path(file_id@),
{
    let mut path = String::from_str("/files/");
    path.append(file_id);
    path
}

fn empty_id() -> (error: OpenAIError)
    ensures
        error@ == OpenAIErrorView::InvalidArgument(empty_id_message()),
{
    OpenAIError::InvalidArgument(String::from_str("file_id must not be empty"))
}

/// The path of a file and the path of its content each name one file: two identifiers
/// that give the same path are the same identifier.
pub proof fn lemma_path_names_one_file(a: Seq<char>, b: Seq<char>)
    ensures
        file_path(a) == file_path(b) ==> a == b,
        content_path(a) == content_path(b) ==> a == b,
{
    let stem = "/files/"@.len() as int;
    assert(file_path(a).skip(stem) =~= a);
    assert(file_path(b).skip(stem) =~= b);
    assert(content_path(a).take(stem + a.len()) =~= file_path(a));
    assert(content_path(b).take(stem + b.len()) =~= file_path(b));
    if content_path(a) == content_path(b) {
        assert(content_path(a).len() == content_path(b).len());
        assert(a.len() == b.len());
    }
}

} // verus!
