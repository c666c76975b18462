//! Fetching stored files: where a file is served, and the file itself.
use vstd::prelude::*;
use crate::db::{CommandView, Command, FileInfo, FileInfoView, get_file_command};
use crate::flup::Flup;
use crate::request::{GetError, GetRequest, IdGetError, IdGetRequest, viewed};

verus! {

/// Do: send `lookup`, to learn what is known of the file.
#[derive(Debug, PartialEq)]
pub struct FindFile {
    pub lookup: Command,
    pub file_id: String,
}

/// A `FindFile` over texts.
#[verifier::ext_equal]
pub struct FindFileView {
    pub lookup: CommandView,
    pub file_id: Seq<char>,
}

impl View for FindFile {
    type V = FindFileView;

    open spec fn view(&self) -> FindFileView {
        FindFileView { lookup: self.lookup@, file_id: self.file_id@ }
    }
}

/// Do: read the stored file `file_id`.
#[derive(Debug, PartialEq)]
pub struct ReadStored {
    pub file_id: String,
    pub file_info: FileInfo,
}

/// A `ReadStored` over texts.
#[verifier::ext_equal]
pub struct ReadStoredView {
    pub file_id: Seq<char>,
    pub file_info: FileInfoView,
}

impl View for ReadStored {
    type V = ReadStoredView;

    open spec fn view(&self) -> ReadStoredView {
        ReadStoredView { file_id: self.file_id@, file_info: self.file_info@ }
    }
}

/// How every fetch starts: with a lookup of the id.
pub open spec fn fetch_started(prefix: Seq<char>, file_id: Seq<char>) -> FindFileView {
    FindFileView { lookup: get_file_command(prefix, file_id), file_id }
}

/// What is known of the place of a file after the lookup.
pub open spec fn place_found(step: FindFileView, found: Option<FileInfoView>) -> Result<
    (Seq<char>, FileInfoView),
    IdGetError,
> {
    match found {
        Some(file_info) => Ok((step.file_id, file_info)),
        None => Err(IdGetError::NotFound),
    }
}

/// How the fetch of a file goes on after the lookup.
pub open spec fn fetch_found(step: FindFileView, found: Option<FileInfoView>) -> Result<
    ReadStoredView,
    GetError,
> {
    match found {
        Some(file_info) => Ok(ReadStoredView { file_id: step.file_id, file_info }),
        None => Err(GetError::NotFound),
    }
}

/// How the fetch of a file ends.
pub open spec fn fetch_ended(step: ReadStoredView, data: Option<Seq<u8>>) -> Result<
    (FileInfoView, Seq<u8>),
    GetError,
> {
    match data {
        Some(data) => Ok((step.file_info, data)),
        None => Err(GetError::FileNotFound),
    }
}

impl Flup {
    /// Starts to find where a file is served.
    pub fn file_by_id(&self, req: IdGetRequest) -> (step: FindFile)
        ensures
            step@ == fetch_started(self.db@, req.file_id@),
            step.file_id == req.file_id,
            step.lookup matches Command::HGet { key, field } && key@ == self.db.key_prefix@
                + "::files"@ && field@ == req.file_id@,
    {
        FindFile { lookup: self.db.get_file(req.file_id.clone()), file_id: req.file_id }
    }

    /// Ends the search for where a file is served with the reply to the lookup.
    pub fn file_by_id_found(&self, step: FindFile, found: Option<FileInfo>) -> (place: Result<
        (String, FileInfo),
        IdGetError,
    >)
        ensures
            viewed(place) == place_found(step@, found.deep_view()),
            match found {
                Some(file_info) => place == Ok::<_, IdGetError>((step.file_id, file_info)),
                None => place == Err::<(String, FileInfo), _>(IdGetError::NotFound),
            },
    {
        match found {
            Some(file_info) => Ok((step.file_id, file_info)),
            None => Err(IdGetError::NotFound),
        }
    }

    /// Starts to fetch a file.
    pub fn file(&self, req: GetRequest) -> (step: FindFile)
        ensures
            step@ == fetch_started(self.db@, req.file_id@),
            step.file_id == req.file_id,
            step.lookup matches Command::HGet { key, field } && key@ == self.db.key_prefix@
                + "::files"@ && field@ == req.file_id@,
    {
        FindFile { lookup: self.db.get_file(req.file_id.clone()), file_id: req.file_id }
    }

    /// Goes on with a fetch after the reply to the lookup.
    pub fn file_found(&self, step: FindFile, found: Option<FileInfo>) -> (next: Result<
        ReadStored,
        GetError,
    >)
        ensures
            viewed(next) == fetch_found(step@, found.deep_view()),
            match found {
                Some(file_info) => next matches Ok(next) && next.file_id == step.file_id
                    && next.file_info == file_info,
                None => next == Err::<ReadStored, _>(GetError::NotFound),
            },
    {
        match found {
            Some(file_info) => Ok(ReadStored { file_id: step.file_id, file_info }),
            None => Err(GetError::NotFound),
        }
    }

    /// Ends a fetch with the content of the stored file, if it could be read.
    pub fn file_read(&self, step: ReadStored, data: Option<Vec<u8>>) -> (file: Result<
        (FileInfo, Vec<u8>),
        GetError,
    >)
        ensures
            viewed(file) == fetch_ended(step@, data.deep_view()),
            match data {
                Some(data) => file == Ok::<_, GetError>((step.file_info, data)),
                None => file == Err::<(FileInfo, Vec<u8>), _>(GetError::FileNotFound),
            },
    {
        match data {
            Some(data) => {
                assert(data.deep_view() =~= data@);
                Ok((step.file_info, data))
            },
            None => Err(GetError::FileNotFound),
        }
    }
}

/// A fetch looks for the id that was asked for, and gives the info that was found under it
/// and all of the bytes that were read, unchanged. What is missing is told apart.
pub proof fn law_fetches_give_what_was_found(
    prefix: Seq<char>,
    file_id: Seq<char>,
    file_info: FileInfoView,
    data: Seq<u8>,
)
    ensures
        ({
            let step = fetch_started(prefix, file_id);
            &&& step.file_id == file_id
            &&& step.lookup == CommandView::HGet { key: prefix + "::files"@, field: file_id }
            &&& place_found(step, Some(file_info)) == Ok::<_, IdGetError>((file_id, file_info))
            &&& place_found(step, None) is Err
            &&& fetch_found(step, None) == Err::<ReadStoredView, _>(GetError::NotFound)
            &&& fetch_found(step, Some(file_info)) matches Ok(next) && {
                &&& next.file_id == file_id
                &&& fetch_ended(next, Some(data)) == Ok::<_, GetError>((file_info, data))
                &&& fetch_ended(next, None) == Err::<(FileInfoView, Seq<u8>), _>(
                    GetError::FileNotFound,
                )
            }
        }),
{
}

} // verus!
