//! What is asked of the service, and why it may refuse.
use vstd::prelude::*;

verus! {

/// A file that came with a request: what finds its content again, its size in bytes and the
/// name it was sent under.
#[derive(Debug, PartialEq)]
pub struct UploadFile {
    pub handle: usize,
    pub size: u64,
    pub filename: Option<String>,
}

/// An `UploadFile` over texts.
#[verifier::ext_equal]
pub struct UploadFileView {
    pub handle: nat,
    pub size: nat,
    pub filename: Option<Seq<char>>,
}

impl View for UploadFile {
    type V = UploadFileView;

    open spec fn view(&self) -> UploadFileView {
        UploadFileView {
            handle: self.handle as nat,
            size: self.size as nat,
            filename: self.filename.deep_view(),
        }
    }
}

impl DeepView for UploadFile {
    type V = UploadFileView;

    open spec fn deep_view(&self) -> UploadFileView {
        self@
    }
}

impl Clone for UploadFile {
    fn clone(&self) -> (copy: UploadFile)
        ensures
            copy@ == self@,
            copy.handle == self.handle,
            copy.size == self.size,
            copy.filename.deep_view() == self.filename.deep_view(),
    {
        UploadFile {
            handle: self.handle,
            size: self.size,
            filename: match &self.filename {
                Some(filename) => Some(filename.clone()),
                None => None,
            },
        }
    }
}

/// The parameters of an upload.
#[derive(Debug, PartialEq)]
pub struct UploadRequestPost {
    pub file: Option<UploadFile>,
    pub public: bool,
    pub desc: Option<String>,
}

/// An `UploadRequestPost` over texts.
#[verifier::ext_equal]
pub struct PostView {
    pub file: Option<UploadFileView>,
    pub public: bool,
    pub desc: Option<Seq<char>>,
}

impl View for UploadRequestPost {
    type V = PostView;

    open spec fn view(&self) -> PostView {
        PostView {
            file: self.file.deep_view(),
            public: self.public,
            desc: self.desc.deep_view(),
        }
    }
}

impl DeepView for UploadRequestPost {
    type V = PostView;

    open spec fn deep_view(&self) -> PostView {
        self@
    }
}

/// A request to store a file.
#[derive(Debug, PartialEq)]
pub struct UploadRequest {
    pub xforwarded: Option<String>,
    pub post: Option<UploadRequestPost>,
    pub ip: String,
}

/// An `UploadRequest` over texts.
#[verifier::ext_equal]
pub struct UploadRequestView {
    pub xforwarded: Option<Seq<char>>,
    pub post: Option<PostView>,
    pub ip: Seq<char>,
}

impl View for UploadRequest {
    type V = UploadRequestView;

    open spec fn view(&self) -> UploadRequestView {
        UploadRequestView {
            xforwarded: self.xforwarded.deep_view(),
            post: self.post.deep_view(),
            ip: self.ip@,
        }
    }
}

/// A request for where a file is served.
#[derive(Debug, PartialEq)]
pub struct IdGetRequest {
    pub file_id: String,
}

/// A request for a file.
#[derive(Debug, PartialEq)]
pub struct GetRequest {
    pub file_id: String,
}

/// Why a file was not stored.
#[derive(Debug, Clone, Copy, PartialEq, Eq, Structural)]
pub enum UploadError {
    SetIp,
    NoPostParams,
    InvalidFileData,
    FileEmpty,
    FileTooBig,
    OpenUploadFile,
    ReadData,
    WriteFile,
    DescTooLong,
    AddFile,
}

/// Why a file was not served.
#[derive(Debug, Clone, Copy, PartialEq, Eq, Structural)]
pub enum GetError {
    NotFound,
    FileNotFound,
}

/// Why no place of a file was given.
#[derive(Debug, Clone, Copy, PartialEq, Eq, Structural)]
pub enum IdGetError {
    NotFound,
}

/// What went wrong with an uploaded file.
#[derive(Debug, Clone, Copy, PartialEq, Eq, Structural)]
pub enum ReadError {
    /// It could not be opened.
    Open,
    /// It was opened, and could not be read to its end.
    Read,
}

/// A result whose success is taken by its view.
pub open spec fn viewed<T: View, E>(result: Result<T, E>) -> Result<T::V, E> {
    match result {
        Ok(value) => Ok(value@),
        Err(error) => Err(error),
    }
}

} // verus!
