//! The values that travel to and from the file endpoints.

use crate::error::{OpenAIError, OpenAIErrorView};
use vstd::prelude::*;

verus! {

/// A file to upload: its name and its content.
#[derive(Debug, Clone, PartialEq, Eq)]
pub struct FileInput {
    pub filename: String,
    pub content: Vec<u8>,
}

pub struct FileInputView {
    pub filename: Seq<char>,
    pub content: Seq<u8>,
}

impl View for FileInput {
    type V = FileInputView;

    open spec fn view(&self) -> FileInputView {
        FileInputView { filename: self.filename@, content: self.content@ }
    }
}

/// An upload: the file and the purpose it is meant for.
#[derive(Debug, Clone, PartialEq, Eq)]
pub struct CreateFileRequest {
    pub file: FileInput,
    pub purpose: String,
}

pub struct CreateFileRequestView {
    pub file: FileInputView,
    pub purpose: Seq<char>,
}

impl View for CreateFileRequest {
    type V = CreateFileRequestView;

    open spec fn view(&self) -> CreateFileRequestView {
        CreateFileRequestView { file: self.file@, purpose: self.purpose@ }
    }
}

/// Collects the fields of a [`CreateFileRequest`] one by one.
#[derive(Debug, Clone)]
pub struct CreateFileRequestArgs {
    file: Option<FileInput>,
    purpose: Option<String>,
}

pub struct CreateFileRequestArgsView {
    pub file: Option<FileInputView>,
    pub purpose: Option<Seq<char>>,
}

impl CreateFileRequestArgsView {
    /// The upload that the collected fields make, or the first field that is missing.
    pub open spec fn build(self) -> Result<CreateFileRequestView, OpenAIErrorView> {
        if self.file is None {
            Err(OpenAIErrorView::InvalidArgument("`file` must be initialized"@))
        } else if self.purpose is None {
            Err(OpenAIErrorView::InvalidArgument("`purpose` must be initialized"@))
        } else {
            Ok(CreateFileRequestView { file: self.file->0, purpose: self.purpose->0 })
        }
    }
}

impl View for CreateFileRequestArgs {
    type V = CreateFileRequestArgsView;

    closed spec fn view(&self) -> CreateFileRequestArgsView {
        CreateFileRequestArgsView {
            file: match self.file {
                Some(file) => Some(file@),
                None => None,
            },
            purpose: self.purpose.deep_view(),
        }
    }
}

impl Default for CreateFileRequestArgs {
    /// No field is set.
    fn default() -> (args: Self)
        ensures
            args@ == (CreateFileRequestArgsView { file: None, purpose: None }),
    {
        CreateFileRequestArgs { file: None, purpose: None }
    }
}

impl CreateFileRequestArgs {
    /// Sets the file, replacing one that was set before.
    pub fn file(self, file: FileInput) -> (args: Self)
        ensures
            args@ == (CreateFileRequestArgsView { file: Some(file@), purpose: self@.purpose }),
    {
        CreateFileRequestArgs { file: Some(file), purpose: self.purpose }
    }

    /// Sets the purpose, replacing one that was set before.
    pub fn purpose(self, purpose: &str) -> (args: Self)
        ensures
            args@ == (CreateFileRequestArgsView { file: self@.file, purpose: Some(purpose@) }),
    {
        CreateFileRequestArgs { file: self.file, purpose: Some(String::from_str(purpose)) }
    }

    /// The upload, once both fields are set.
    pub fn build(self) -> (built: Result<CreateFileRequest, OpenAIError>)
        ensures
            match built {
                Ok(request) => self@.build() == Ok::<_, OpenAIErrorView>(request@),
                Err(error) => self@.build() == Err::<CreateFileRequestView, _>(error@),
            },
    {
        match self.file {
            None => Err(
                OpenAIError::InvalidArgument(String::from_str("`file` must be initialized")),
            ),
            Some(file) => match self.purpose {
                None => Err(
                    OpenAIError::InvalidArgument(
                        String::from_str("`purpose` must be initialized"),
                    ),
                ),
                Some(purpose) => Ok(CreateFileRequest { file, purpose }),
            },
        }
    }
}

/// A file as the service records it.
#[derive(Debug, Clone, PartialEq, Eq)]
pub struct OpenAIFile {
    pub id: String,
    pub bytes: u64,
    pub created_at: u64,
    pub filename: String,
    pub purpose: String,
    pub status: Option<String>,
}

pub struct OpenAIFileView {
    pub id: Seq<char>,
    pub bytes: nat,
    pub created_at: nat,
    pub filename: Seq<char>,
    pub purpose: Seq<char>,
    pub status: Option<Seq<char>>,
}

impl View for OpenAIFile {
    type V = OpenAIFileView;

    open spec fn view(&self) -> OpenAIFileView {
        OpenAIFileView {
            id: self.id@,
            bytes: self.bytes as nat,
            created_at: self.created_at as nat,
            filename: self.filename@,
            purpose: self.purpose@,
            status: self.status.deep_view(),
        }
    }
}

/// One page of the files that the service holds.
#[derive(Debug, Clone, PartialEq, Eq)]
pub struct ListFilesResponse {
    pub object: String,
    pub data: Vec<OpenAIFile>,
    pub has_more: bool,
}

pub struct ListFilesResponseView {
    pub object: Seq<char>,
    pub data: Seq<OpenAIFileView>,
    pub has_more: bool,
}

impl View for ListFilesResponse {
    type V = ListFilesResponseView;

    open spec fn view(&self) -> ListFilesResponseView {
        ListFilesResponseView {
            object: self.object@,
            data: self.data@.map_values(|file: OpenAIFile| file@),
            has_more: self.has_more,
        }
    }
}

/// What the service answers when asked to delete a file.
#[derive(Debug, Clone, PartialEq, Eq)]
pub struct DeleteFileResponse {
    pub id: String,
    pub deleted: bool,
}

pub struct DeleteFileResponseView {
    pub id: Seq<char>,
    pub deleted: bool,
}

impl View for DeleteFileResponse {
    type V = DeleteFileResponseView;

    open spec fn view(&self) -> DeleteFileResponseView {
        DeleteFileResponseView { id: self.id@, deleted: self.deleted }
    }
}

} // verus!
