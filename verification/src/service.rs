//! A model of the service behind the file endpoints.
//!
//! What a service answers cannot be proved here: it runs elsewhere. This module
//! says in specification code what the operations of [`crate::Files`] count on, a
//! service that keeps each file it is given until it is asked to delete it, and
//! proves what the operations then come to, one after another.

use crate::error::{ErrorObjectView, OpenAIErrorView};
use crate::exchange::{
    is_success, reading_of, rejection, text_of, Method, PayloadView, ReadingView, RequestView,
};
use crate::file::{
    content_path, create_request, delete_request, file_path, files_path, list_request,
    retrieve_content_request, retrieve_request,
};
use crate::types::{
    CreateFileRequestView, DeleteFileResponseView, ListFilesResponseView, OpenAIFileView,
};
use vstd::prelude::*;
use vstd::utf8::*;

verus! {

/// A file as the service keeps it: its record and its content.
pub struct StoredFile {
    pub record: OpenAIFileView,
    pub content: Seq<u8>,
}

/// What the service itself decides on when it takes in a file.
pub struct Receipt {
    pub id: Seq<char>,
    pub created_at: nat,
    pub status: Option<Seq<char>>,
}

/// What the service answers to a request, with the body decoded.
pub enum Reply {
    File(OpenAIFileView),
    Page(ListFilesResponseView),
    Deleted(DeleteFileResponseView),
    Content(Seq<u8>),
    /// A non-success status.
    Fault(u16),
}

impl Reply {
    /// The status code that the reply comes with.
    pub open spec fn status(self) -> u16 {
        match self {
            Reply::Fault(status) => status,
            _ => 200,
        }
    }
}

/// Whether the service may give `id` to a file: it is not empty, and it can stand
/// in a path as one segment.
pub open spec fn is_identifier(id: Seq<char>) -> bool {
    id.len() > 0 && !id.contains('/')
}

/// Whether a query lets through the files that are meant for `purpose`. A pair with
/// the key `purpose` asks for the purpose it names; the service passes over every
/// other pair.
pub open spec fn selects(query: Seq<(Seq<char>, Seq<char>)>, purpose: Seq<char>) -> bool {
    forall|i: int|
        0 <= i < query.len() && (#[trigger] query[i]).0 == "purpose"@ ==> query[i].1 == purpose
}

/// Whether `path` lies below the collection of files.
pub open spec fn is_file_path(path: Seq<char>) -> bool {
    "/files/"@.is_prefix_of(path)
}

/// What follows the collection's path in `path`.
pub open spec fn below_files(path: Seq<char>) -> Seq<char> {
    path.skip("/files/"@.len() as int)
}

/// Whether `segments`, the part of a path below the collection, asks for a content.
pub open spec fn is_content(segments: Seq<char>) -> bool {
    "/content"@.is_suffix_of(segments)
}

/// The identifier in `segments`, where they ask for a content.
pub open spec fn content_owner(segments: Seq<char>) -> Seq<char> {
    segments.take(segments.len() - "/content"@.len())
}

/// The files that the service holds, oldest first.
pub struct Service {
    pub files: Seq<StoredFile>,
}

impl Service {
    /// Whether the service holds a file under `id`.
    pub open spec fn holds(self, id: Seq<char>) -> bool {
        exists|i: int| 0 <= i < self.files.len() && (#[trigger] self.files[i]).record.id == id
    }

    /// Where among its files the service holds the one under `id`.
    pub open spec fn position(self, id: Seq<char>) -> int {
        choose|i: int| 0 <= i < self.files.len() && (#[trigger] self.files[i]).record.id == id
    }

    /// The file that the service holds under `id`.
    pub open spec fn file(self, id: Seq<char>) -> StoredFile {
        self.files[self.position(id)]
    }

    /// Every file has an identifier of its own, and its record tells its size.
    pub open spec fn wf(self) -> bool {
        &&& forall|i: int|
            0 <= i < self.files.len() ==> is_identifier((#[trigger] self.files[i]).record.id)
        &&& forall|i: int|
            0 <= i < self.files.len() ==> (#[trigger] self.files[i]).record.bytes
                == self.files[i].content.len()
        &&& forall|i: int, j: int|
            0 <= i < j < self.files.len() ==> (#[trigger] self.files[i]).record.id != (
            #[trigger] self.files[j]).record.id
    }

    /// Whether the service may use `receipt` for its next file.
    pub open spec fn admits(self, receipt: Receipt) -> bool {
        is_identifier(receipt.id) && !self.holds(receipt.id)
    }

    /// Takes in an upload under `receipt`.
    pub open spec fn create(self, upload: CreateFileRequestView, receipt: Receipt) -> (
        Service,
        Reply,
    ) {
        let record = OpenAIFileView {
            id: receipt.id,
            bytes: upload.file.content.len(),
            created_at: receipt.created_at,
            filename: upload.file.filename,
            purpose: upload.purpose,
            status: receipt.status,
        };
        let stored = StoredFile { record, content: upload.file.content };
        (Service { files: self.files.push(stored) }, Reply::File(record))
    }

    /// The records that a query lets through, oldest first, as one page.
    pub open spec fn list(self, query: Seq<(Seq<char>, Seq<char>)>) -> Reply {
        Reply::Page(
            ListFilesResponseView {
                object: "list"@,
                data: self.files.filter(
                    |stored: StoredFile| selects(query, stored.record.purpose),
                ).map_values(|stored: StoredFile| stored.record),
                has_more: false,
            },
        )
    }

    /// The record of the file under `id`.
    pub open spec fn retrieve(self, id: Seq<char>) -> Reply {
        if self.holds(id) {
            Reply::File(self.file(id).record)
        } else {
            Reply::Fault(404)
        }
    }

    /// Lets go of the file under `id`.
    pub open spec fn delete(self, id: Seq<char>) -> (Service, Reply) {
        if self.holds(id) {
            (
                Service { files: self.files.remove(self.position(id)) },
                Reply::Deleted(DeleteFileResponseView { id, deleted: true }),
            )
        } else {
            (self, Reply::Fault(404))
        }
    }

    /// The content of the file under `id`.
    pub open spec fn content(self, id: Seq<char>) -> Reply {
        if self.holds(id) {
            Reply::Content(self.file(id).content)
        } else {
            Reply::Fault(404)
        }
    }

    /// What the service does with a request: the files it holds afterwards, and its
    /// answer. `receipt` is used if the request is an upload.
    pub open spec fn serve(self, request: RequestView, receipt: Receipt) -> (Service, Reply) {
        if request.path == files_path() {
            match (request.method, request.payload) {
                (Method::Post, PayloadView::Form(upload)) => self.create(upload, receipt),
                (Method::Get, PayloadView::Query(query)) => (self, self.list(query)),
                (Method::Get, PayloadView::Empty) => (self, self.list(Seq::empty())),
                _ => (self, Reply::Fault(400)),
            }
        } else if is_file_path(request.path) {
            let segments = below_files(request.path);
            match request.method {
                Method::Get => if is_content(segments) {
                    (self, self.content(content_owner(segments)))
                } else {
                    (self, self.retrieve(segments))
                },
                Method::Delete => self.delete(segments),
                Method::Post => (self, Reply::Fault(405)),
            }
        } else {
            (self, Reply::Fault(404))
        }
    }
}

/// A path below the collection is not the collection's path, and what follows the
/// collection's path in the path of a file is the file's identifier.
proof fn lemma_file_path(id: Seq<char>)
    ensures
        file_path(id) != files_path(),
        is_file_path(file_path(id)),
        below_files(file_path(id)) == id,
{
    reveal_strlit("/files");
    reveal_strlit("/files/");
    assert(file_path(id).len() == 7 + id.len());
    assert(below_files(file_path(id)) =~= id);
    assert(file_path(id).subrange(0, 7) =~= "/files/"@);
}

/// The path of a content lies below the collection, asks for a content, and names
/// its owner.
proof fn lemma_content_path(id: Seq<char>)
    ensures
        content_path(id) != files_path(),
        is_file_path(content_path(id)),
        is_content(below_files(content_path(id))),
        content_owner(below_files(content_path(id))) == id,
{
    reveal_strlit("/files");
    reveal_strlit("/files/");
    reveal_strlit("/content");
    let path = content_path(id);
    let segments = below_files(path);
    assert(path.len() == 7 + id.len() + 8);
    assert(path.subrange(0, 7) =~= "/files/"@);
    assert(segments =~= id + "/content"@);
    assert(segments.subrange(segments.len() - 8, segments.len() as int) =~= "/content"@);
    assert(content_owner(segments) =~= id);
}

/// An identifier does not ask for a content.
proof fn lemma_identifier_is_no_content(id: Seq<char>)
    requires
        is_identifier(id),
    ensures
        !is_content(id),
{
    reveal_strlit("/content");
    if is_content(id) {
        let at = id.len() - 8;
        assert(id.subrange(at, id.len() as int)[0] == '/');
        assert(id[at] == '/');
        assert(id.contains('/'));
    }
}

/// Once a file is taken in under a receipt that the service admits, the service
/// holds it under the receipt's identifier, and is as well-formed as before.
proof fn lemma_created(service: Service, upload: CreateFileRequestView, receipt: Receipt)
    requires
        service.wf(),
        service.admits(receipt),
    ensures
        ({
            let (kept, created) = service.create(upload, receipt);
            &&& kept.wf()
            &&& kept.holds(receipt.id)
            &&& kept.position(receipt.id) == service.files.len()
            &&& created == Reply::File(kept.file(receipt.id).record)
            &&& kept.file(receipt.id).content == upload.file.content
        }),
{
    let (kept, created) = service.create(upload, receipt);
    let last = service.files.len() as int;
    assert(kept.files[last].record.id == receipt.id);
    assert forall|i: int| 0 <= i < last implies (#[trigger] kept.files[i]).record.id
        != receipt.id by {
        assert(kept.files[i] == service.files[i]);
    }
    assert forall|i: int, j: int| 0 <= i < j < kept.files.len() implies (
    #[trigger] kept.files[i]).record.id != (#[trigger] kept.files[j]).record.id by {
        assert(kept.files[i] == service.files[i]);
        if j < last {
            assert(kept.files[j] == service.files[j]);
        }
    }
    assert forall|i: int| 0 <= i < kept.files.len() implies is_identifier(
        (#[trigger] kept.files[i]).record.id,
    ) && kept.files[i].record.bytes == kept.files[i].content.len() by {
        if i < last {
            assert(kept.files[i] == service.files[i]);
        }
    }
}

/// Whatever the request, the service stays well-formed.
pub proof fn lemma_serve_keeps_wf(service: Service, request: RequestView, receipt: Receipt)
    requires
        service.wf(),
        service.admits(receipt),
    ensures
        service.serve(request, receipt).0.wf(),
{
    let kept = service.serve(request, receipt).0;
    if request.path == files_path() {
        if let PayloadView::Form(upload) = request.payload {
            lemma_created(service, upload, receipt);
        }
    } else if is_file_path(request.path) && request.method == Method::Delete {
        let id = below_files(request.path);
        if service.holds(id) {
            let at = service.position(id);
            service.files.remove_ensures(at);
            assert forall|i: int| 0 <= i < kept.files.len() implies #[trigger] kept.files[i]
                == service.files[if i < at {
                i
            } else {
                i + 1
            }] by {}
        }
    }
}

/// A file that was uploaded can be retrieved. The record that the upload is answered
/// with names the file, its size and its purpose as they were uploaded, and asking
/// for the record under its identifier gives that same record.
pub proof fn lemma_create_then_retrieve(
    service: Service,
    upload: CreateFileRequestView,
    receipt: Receipt,
    later: Receipt,
)
    requires
        service.wf(),
        service.admits(receipt),
    ensures
        ({
            let (kept, created) = service.serve(create_request(upload), receipt);
            &&& is_success(created.status())
            &&& created matches Reply::File(record)
            &&& record.filename == upload.file.filename
            &&& record.bytes == upload.file.content.len()
            &&& record.purpose == upload.purpose
            &&& retrieve_request(record.id) matches Ok(request)
            &&& kept.serve(request, later) == (kept, Reply::File(record))
        }),
{
    lemma_created(service, upload, receipt);
    lemma_file_path(receipt.id);
    lemma_identifier_is_no_content(receipt.id);
}

/// A file that was uploaded is listed. Under a query that lets its purpose through,
/// the page that comes back holds the record that the upload was answered with, as
/// its last entry.
pub proof fn lemma_create_then_list(
    service: Service,
    upload: CreateFileRequestView,
    receipt: Receipt,
    query: Seq<(Seq<char>, Seq<char>)>,
    later: Receipt,
)
    requires
        service.wf(),
        service.admits(receipt),
        selects(query, upload.purpose),
    ensures
        ({
            let (kept, created) = service.serve(create_request(upload), receipt);
            &&& created matches Reply::File(record)
            &&& kept.serve(list_request(query), later) matches (same, Reply::Page(page))
            &&& same == kept
            &&& page.data.contains(record)
            &&& page.data.last() == record
        }),
{
    let (kept, created) = service.serve(create_request(upload), receipt);
    let record = created->File_0;
    let stored = StoredFile { record, content: upload.file.content };
    let through = |stored: StoredFile| selects(query, stored.record.purpose);
    assert(kept.files.drop_last() =~= service.files);
    assert(kept.files.last() == stored);
    assert(kept.files.filter(through) == service.files.filter(through).push(stored)) by {
        reveal(Seq::filter);
    }
    let data = kept.files.filter(through).map_values(|stored: StoredFile| stored.record);
    assert(data[data.len() - 1] == record);
}

/// A file that is deleted is gone. Deleting a file that the service holds is answered
/// with its identifier and with `deleted` set, and asking for its record afterwards
/// ends in an API error that says that nothing was found.
pub proof fn lemma_delete_then_retrieve(
    service: Service,
    id: Seq<char>,
    receipt: Receipt,
    later: Receipt,
)
    requires
        service.wf(),
        service.holds(id),
    ensures
        ({
            &&& delete_request(id) matches Ok(request)
            &&& service.serve(request, receipt) matches (kept, Reply::Deleted(answer))
            &&& answer.id == id
            &&& answer.deleted
            &&& retrieve_request(id) matches Ok(again)
            &&& kept.serve(again, later) == (kept, Reply::Fault(404))
            &&& forall|body: Seq<u8>| #[trigger]
                reading_of(404, body) == (ReadingView::Rejected { status: 404, body })
            &&& forall|object: ErrorObjectView| #[trigger]
                rejection(404, Ok(object)) matches OpenAIErrorView::ApiError(error)
                    && error.is_not_found()
        }),
{
    let at = service.position(id);
    assert(is_identifier(service.files[at].record.id));
    lemma_file_path(id);
    lemma_identifier_is_no_content(id);
    let kept = service.delete(id).0;
    service.files.remove_ensures(at);
    assert forall|i: int| 0 <= i < kept.files.len() implies (#[trigger] kept.files[i]).record.id
        != id by {
        if i < at {
            assert(kept.files[i] == service.files[i]);
        } else {
            assert(kept.files[i] == service.files[i + 1]);
        }
    }
}

/// The content of a file that was uploaded comes back as it was sent, byte for byte.
/// Where the content is well-formed UTF-8, the text read from it has those very bytes.
pub proof fn lemma_create_then_retrieve_content(
    service: Service,
    upload: CreateFileRequestView,
    receipt: Receipt,
    later: Receipt,
)
    requires
        service.wf(),
        service.admits(receipt),
    ensures
        ({
            let (kept, created) = service.serve(create_request(upload), receipt);
            &&& created matches Reply::File(record)
            &&& retrieve_content_request(record.id) matches Ok(request)
            &&& kept.serve(request, later) == (kept, Reply::Content(upload.file.content))
            &&& valid_utf8(upload.file.content) ==> (text_of(upload.file.content) matches Some(
                content,
            ) && encode_utf8(content) == upload.file.content)
        }),
{
    lemma_created(service, upload, receipt);
    lemma_content_path(receipt.id);
    if valid_utf8(upload.file.content) {
        decode_utf8_encode_utf8(upload.file.content);
    }
}

} // verus!
