//! Answering requests.
use vstd::prelude::*;
use vstd::string::*;
use crate::db::{FileInfo, FileInfoView};
use crate::filename::{path_extension, path_extension_of};
use crate::flup::{ConfigView, Flup};
use crate::request::{GetError, IdGetError, UploadError, viewed};
use crate::response::{
    Body, BodyView, ErrorPageData, HomePageData, PageData, PageDataView, Response, ResponseView,
    Status, UploadsPageData, error_response, page,
};
use crate::url::{hosts_fit, parse_url, parsed_url, url_is_countable};

verus! {

/// Where a file is found, given its id.
pub open spec fn file_url(config: ConfigView, file_id: Seq<char>) -> Seq<char> {
    config.url + "/"@ + file_id
}

/// Where a file is served, given its id and its name.
pub open spec fn place_url(config: ConfigView, file_id: Seq<char>, name: Seq<char>) -> Seq<char> {
    file_url(config, file_id) + "/"@ + name
}

/// The status that a refused upload is answered with: uploads that cannot be taken are
/// told from those that the service failed to store.
pub open spec fn refusal_status(error: UploadError) -> Status {
    match error {
        UploadError::NoPostParams => Status::BadRequest,
        UploadError::InvalidFileData => Status::BadRequest,
        UploadError::FileEmpty => Status::BadRequest,
        UploadError::FileTooBig => Status::BadRequest,
        UploadError::DescTooLong => Status::BadRequest,
        UploadError::SetIp => Status::InternalServerError,
        UploadError::OpenUploadFile => Status::InternalServerError,
        UploadError::ReadData => Status::InternalServerError,
        UploadError::WriteFile => Status::InternalServerError,
        UploadError::AddFile => Status::InternalServerError,
    }
}

/// The text that a refused upload is answered with.
pub open spec fn refusal_text(error: UploadError) -> Seq<char> {
    match error {
        UploadError::SetIp => "Error adding IP to temp DB"@,
        UploadError::NoPostParams => "No POST params found"@,
        UploadError::InvalidFileData => "Invalid file data found"@,
        UploadError::FileEmpty => "Specified file is empty"@,
        UploadError::FileTooBig => "File exceeds our limit"@,
        UploadError::OpenUploadFile => "Error opening uploaded file"@,
        UploadError::ReadData => "Error reading file data"@,
        UploadError::WriteFile => "Error writing to file"@,
        UploadError::DescTooLong => "Description too long"@,
        UploadError::AddFile => "Error adding file to DB"@,
    }
}

/// The answer to an upload.
pub open spec fn upload_answer(config: ConfigView, result: Result<Seq<char>, UploadError>) -> ResponseView {
    match result {
        Ok(file_id) => ResponseView {
            status: Status::Success,
            body: BodyView::Text(file_url(config, file_id)),
        },
        Err(error) => error_response(refusal_status(error), refusal_text(error)),
    }
}

/// An answer that sends the client to `location`.
pub open spec fn redirect(location: Seq<char>) -> ResponseView {
    ResponseView { status: Status::SeeOther, body: BodyView::Redirect(location) }
}

/// An answer that holds a file.
pub open spec fn served(mime: Seq<char>, content: Seq<u8>) -> ResponseView {
    ResponseView { status: Status::Success, body: BodyView::File { mime, content } }
}

/// The place that a request for a file by its id leads to can be redirected to.
pub open spec fn place_is_valid(
    config: ConfigView,
    place: Result<(Seq<char>, FileInfoView), IdGetError>,
) -> bool {
    match place {
        Ok((file_id, file_info)) => {
            let url = place_url(config, file_id, file_info.name);
            hosts_fit(url) && parsed_url(url) is Some
        },
        Err(_) => true,
    }
}

/// The answer to a request for a file by its id alone.
pub open spec fn place_answer(
    config: ConfigView,
    place: Result<(Seq<char>, FileInfoView), IdGetError>,
) -> ResponseView {
    match place {
        Ok((file_id, file_info)) => redirect(
            parsed_url(place_url(config, file_id, file_info.name))->0,
        ),
        Err(IdGetError::NotFound) => error_response(Status::NotFound, "File not found"@),
    }
}

/// The extension that decides the media type of a file: none counts as an empty one.
pub open spec fn media_extension(name: Seq<char>) -> Seq<char> {
    match path_extension_of(name) {
        Some(ext) => ext,
        None => Seq::empty(),
    }
}

/// The answer to a request for a file.
pub open spec fn file_answer(file: Result<(FileInfoView, Seq<u8>), GetError>) -> ResponseView {
    match file {
        Ok((file_info, content)) => served(
            mime_of_extension(media_extension(file_info.name)),
            content,
        ),
        Err(GetError::NotFound) => error_response(Status::NotFound, "File not found"@),
        Err(GetError::FileNotFound) => error_response(
            Status::NotFound,
            "File not found (on disk (oh fuck))"@,
        ),
    }
}

/// The front page. A count that could not be had shows as 0.
pub open spec fn home_answer(
    uploads_count: Option<isize>,
    public_uploads_count: Option<isize>,
) -> ResponseView {
    page(
        Status::Success,
        "index"@,
        PageDataView::Home {
            uploads_count: uploads_count.unwrap_or(0) as int,
            public_uploads_count: public_uploads_count.unwrap_or(0) as int,
        },
    )
}

/// The listing of public uploads. A listing that could not be had shows as empty.
pub open spec fn uploads_answer(uploads: Option<Seq<FileInfoView>>) -> ResponseView {
    page(
        Status::Success,
        "uploads"@,
        PageDataView::Uploads {
            uploads: match uploads {
                Some(uploads) => uploads,
                None => Seq::empty(),
            },
        },
    )
}

/// The media type that `mime_guess` knows for an extension.
pub uninterp spec fn mime_of_extension(ext: Seq<char>) -> Seq<char>;

/// Calls `mime_guess::get_mime_type`, which looks the extension up in a fixed table,
/// and writes the media type out. An empty extension is in no table: it gives the type
/// of arbitrary bytes.
#[verifier::external_body]
fn mime_type(ext: &str) -> (mime: String)
    ensures
        mime@ == mime_of_extension(ext@),
        ext@.len() == 0 ==> mime@ == "application/octet-stream"@,
{
    mime_guess::get_mime_type(ext).to_string()
}

/// Answers requests on behalf of the service.
#[derive(Debug, Clone, PartialEq)]
pub struct FlupHandler {
    pub flup: Flup,
}

impl FlupHandler {
    /// A handler for `flup`.
    pub fn new(flup: Flup) -> (handler: FlupHandler)
        ensures
            handler.flup == flup,
    {
        FlupHandler { flup }
    }

    /// The page that shows an error.
    pub fn error_page(&self, status: Status, text: &str) -> (response: Response)
        ensures
            response@ == error_response(status, text@),
            response.status == status,
            response.body matches Body::Page { template, data } && template@ == "error"@ && (
            data matches PageData::Error(data) && data.error@ == text@),
    {
        let data = PageData::Error(ErrorPageData { error: text.to_owned() });
        Response { status, body: Body::Page { template: "error".to_owned(), data } }
    }

    fn file_url(&self, file_id: &str) -> (url: String)
        ensures
            url@ == file_url(self.flup.config@, file_id@),
    {
        self.flup.config.url.clone().concat("/").concat(file_id)
    }

    /// Answers an upload.
    pub fn handle_upload(&self, result: Result<String, UploadError>) -> (response: Response)
        ensures
            response@ == upload_answer(self.flup.config@, viewed(result)),
            result matches Ok(file_id) ==> response.status == Status::Success && (
            response.body matches Body::Text(text) && text@ == self.flup.config.url@ + "/"@
                + file_id@),
            result matches Err(error) ==> {
                &&& response.status == match error {
                    UploadError::SetIp => Status::InternalServerError,
                    UploadError::NoPostParams => Status::BadRequest,
                    UploadError::InvalidFileData => Status::BadRequest,
                    UploadError::FileEmpty => Status::BadRequest,
                    UploadError::FileTooBig => Status::BadRequest,
                    UploadError::OpenUploadFile => Status::InternalServerError,
                    UploadError::ReadData => Status::InternalServerError,
                    UploadError::WriteFile => Status::InternalServerError,
                    UploadError::DescTooLong => Status::BadRequest,
                    UploadError::AddFile => Status::InternalServerError,
                }
                &&& response.body matches Body::Page { template, data } && template@ == "error"@ && (
                data matches PageData::Error(data) && data.error@ == match error {
                        UploadError::SetIp => "Error adding IP to temp DB"@,
                        UploadError::NoPostParams => "No POST params found"@,
                        UploadError::InvalidFileData => "Invalid file data found"@,
                        UploadError::FileEmpty => "Specified file is empty"@,
                        UploadError::FileTooBig => "File exceeds our limit"@,
                        UploadError::OpenUploadFile => "Error opening uploaded file"@,
                        UploadError::ReadData => "Error reading file data"@,
                        UploadError::WriteFile => "Error writing to file"@,
                        UploadError::DescTooLong => "Description too long"@,
                        UploadError::AddFile => "Error adding file to DB"@,
                })
            },
    {
        match result {
            Ok(file_id) => {
                Response { status: Status::Success, body: Body::Text(self.file_url(file_id.as_str())) }
            },
            Err(error) => match error {
                UploadError::SetIp => {
                    self.error_page(Status::InternalServerError, "Error adding IP to temp DB")
                },
                UploadError::NoPostParams => {
                    self.error_page(Status::BadRequest, "No POST params found")
                },
                UploadError::InvalidFileData => {
                    self.error_page(Status::BadRequest, "Invalid file data found")
                },
                UploadError::FileEmpty => {
                    self.error_page(Status::BadRequest, "Specified file is empty")
                },
                UploadError::FileTooBig => {
                    self.error_page(Status::BadRequest, "File exceeds our limit")
                },
                UploadError::OpenUploadFile => {
                    self.error_page(Status::InternalServerError, "Error opening uploaded file")
                },
                UploadError::ReadData => {
                    self.error_page(Status::InternalServerError, "Error reading file data")
                },
                UploadError::WriteFile => {
                    self.error_page(Status::InternalServerError, "Error writing to file")
                },
                UploadError::DescTooLong => {
                    self.error_page(Status::BadRequest, "Description too long")
                },
                UploadError::AddFile => {
                    self.error_page(Status::InternalServerError, "Error adding file to DB")
                },
            },
        }
    }

    /// An answer that sends the client to `location`.
    pub fn redirected(&self, location: String) -> (response: Response)
        ensures
            response@ == redirect(location@),
            response.status == Status::SeeOther,
            response.body == Body::Redirect(location),
    {
        Response { status: Status::SeeOther, body: Body::Redirect(location) }
    }

    /// Where a file is served, given its id and its name.
    pub fn place_url(&self, file_id: &str, name: &str) -> (url: String)
        ensures
            url@ == place_url(self.flup.config@, file_id@, name@),
            url@ == self.flup.config.url@ + "/"@ + file_id@ + "/"@ + name@,
    {
        self.file_url(file_id).concat("/").concat(name)
    }

    /// Answers a request for a file by its id alone: with its place, if it is known.
    pub fn handle_file_by_id(&self, place: Result<(String, FileInfo), IdGetError>) -> (response: Response)
        requires
            place_is_valid(self.flup.config@, viewed(place)),
        ensures
            response@ == place_answer(self.flup.config@, viewed(place)),
            match place {
                Ok((file_id, file_info)) => response.status == Status::SeeOther && (
                response.body matches Body::Redirect(location) && parsed_url(
                    self.flup.config.url@ + "/"@ + file_id@ + "/"@ + file_info.name@,
                ) == Some(location@)),
                Err(_) => response.status == Status::NotFound && (
                response.body matches Body::Page { template, data } && template@ == "error"@ && (
                data matches PageData::Error(data) && data.error@ == "File not found"@)),
            },
    {
        match place {
            Ok((file_id, file_info)) => {
                let url = self.place_url(file_id.as_str(), file_info.name.as_str());
                self.redirected(parse_url(url.as_str()).unwrap())
            },
            Err(IdGetError::NotFound) => self.error_page(Status::NotFound, "File not found"),
        }
    }

    /// Answers a request for a file by its id alone, unless its place cannot be
    /// read as a URL.
    pub fn try_file_by_id(&self, place: Result<(String, FileInfo), IdGetError>) -> (response: Option<
        Response,
    >)
        ensures
            response.deep_view() == (if place_is_valid(self.flup.config@, viewed(place)) {
                Some(place_answer(self.flup.config@, viewed(place)))
            } else {
                None
            }),
            match place {
                Ok((file_id, file_info)) => {
                    let url = self.flup.config.url@ + "/"@ + file_id@ + "/"@ + file_info.name@;
                    &&& response is Some <==> hosts_fit(url) && parsed_url(url) is Some
                    &&& response matches Some(response) ==> response.status == Status::SeeOther && (
                    response.body matches Body::Redirect(location) && parsed_url(url) == Some(
                        location@,
                    ))
                },
                Err(_) => response matches Some(response) && response.status == Status::NotFound && (
                response.body matches Body::Page { template, data } && template@ == "error"@ && (
                data matches PageData::Error(data) && data.error@ == "File not found"@)),
            },
    {
        if let Ok((file_id, file_info)) = &place {
            let url = self.place_url(file_id.as_str(), file_info.name.as_str());
            if !url_is_countable(url.as_str()) || parse_url(url.as_str()).is_none() {
                return None;
            }
        }
        Some(self.handle_file_by_id(place))
    }

    /// An answer that holds a file of the media type `mime`.
    pub fn served(&self, mime: String, content: Vec<u8>) -> (response: Response)
        ensures
            response@ == served(mime@, content@),
            response.status == Status::Success,
            response.body == (Body::File { mime, content }),
    {
        Response { status: Status::Success, body: Body::File { mime, content } }
    }

    /// Answers a request for a file.
    pub fn handle_file(&self, file: Result<(FileInfo, Vec<u8>), GetError>) -> (response: Response)
        ensures
            response@ == file_answer(viewed(file)),
            match file {
                Ok((file_info, data)) => response.status == Status::Success && (
                response.body matches Body::File { mime, content } && content == data && mime@
                    == mime_of_extension(
                    match path_extension_of(file_info.name@) {
                        Some(ext) => ext,
                        None => Seq::empty(),
                    },
                )),
                Err(error) => response.status == Status::NotFound && (
                response.body matches Body::Page { template, data } && template@ == "error"@ && (
                data matches PageData::Error(data) && data.error@ == match error {
                    GetError::NotFound => "File not found"@,
                    GetError::FileNotFound => "File not found (on disk (oh fuck))"@,
                })),
            },
    {
        match file {
            Ok((file_info, data)) => {
                let ext = match path_extension(file_info.name.as_str()) {
                    Some(ext) => ext,
                    None => String::new(),
                };
                self.served(mime_type(ext.as_str()), data)
            },
            Err(GetError::NotFound) => self.error_page(Status::NotFound, "File not found"),
            Err(GetError::FileNotFound) => {
                self.error_page(Status::NotFound, "File not found (on disk (oh fuck))")
            },
        }
    }

    /// The front page. A count that could not be had shows as 0.
    pub fn handle_home(
        &self,
        uploads_count: Option<isize>,
        public_uploads_count: Option<isize>,
    ) -> (response: Response)
        ensures
            response@ == home_answer(uploads_count, public_uploads_count),
            response.status == Status::Success,
            response.body matches Body::Page { template, data } && template@ == "index"@ && (
            data matches PageData::Home(data) && data.uploads_count == (match uploads_count {
                Some(count) => count,
                None => 0,
            }) && data.public_uploads_count == (match public_uploads_count {
                Some(count) => count,
                None => 0,
            })),
    {
        let data = PageData::Home(
            HomePageData {
                uploads_count: uploads_count.unwrap_or(0),
                public_uploads_count: public_uploads_count.unwrap_or(0),
            },
        );
        Response { status: Status::Success, body: Body::Page { template: "index".to_owned(), data } }
    }

    /// The listing of public uploads. A listing that could not be had shows as empty.
    pub fn handle_uploads(&self, uploads: Option<Vec<FileInfo>>) -> (response: Response)
        ensures
            response@ == uploads_answer(uploads.deep_view()),
            response.status == Status::Success,
            response.body matches Body::Page { template, data } && template@ == "uploads"@ && (
            data matches PageData::Uploads(data) && match uploads {
                Some(uploads) => data.uploads == uploads,
                None => data.uploads@.len() == 0,
            }),
    {
        let uploads: Vec<FileInfo> = match uploads {
            Some(uploads) => uploads,
            None => Vec::new(),
        };
        let data = PageData::Uploads(UploadsPageData { uploads });
        Response { status: Status::Success, body: Body::Page { template: "uploads".to_owned(), data } }
    }

    /// The page about the service.
    pub fn handle_about(&self) -> (response: Response)
        ensures
            response@ == page(Status::Success, "about"@, PageDataView::Nothing),
            response.status == Status::Success,
            response.body matches Body::Page { template, data } && template@ == "about"@
                && data is Nothing,
    {
        Response {
            status: Status::Success,
            body: Body::Page { template: "about".to_owned(), data: PageData::Nothing },
        }
    }
}

/// An upload that was refused is never answered as a success: the answer is an error page
/// with a text, and two uploads that were refused for different reasons get different
/// texts.
pub proof fn law_refused_uploads_are_told_why(config: ConfigView, one: UploadError, other: UploadError)
    ensures
        upload_answer(config, Err(one)) == error_response(refusal_status(one), refusal_text(one)),
        refusal_status(one) == Status::BadRequest || refusal_status(one)
            == Status::InternalServerError,
        refusal_text(one).len() > 0,
        refusal_text(one) == refusal_text(other) ==> one == other,
{
    reveal_strlit("Error adding IP to temp DB");
    reveal_strlit("No POST params found");
    reveal_strlit("Invalid file data found");
    reveal_strlit("Specified file is empty");
    reveal_strlit("File exceeds our limit");
    reveal_strlit("Error opening uploaded file");
    reveal_strlit("Error reading file data");
    reveal_strlit("Error writing to file");
    reveal_strlit("Description too long");
    reveal_strlit("Error adding file to DB");
    // The lengths tell most of the texts apart.
    assert("Error adding IP to temp DB"@.len() == 26);
    assert("No POST params found"@.len() == 20);
    assert("Invalid file data found"@.len() == 23);
    assert("Specified file is empty"@.len() == 23);
    assert("File exceeds our limit"@.len() == 22);
    assert("Error opening uploaded file"@.len() == 27);
    assert("Error reading file data"@.len() == 23);
    assert("Error writing to file"@.len() == 21);
    assert("Description too long"@.len() == 20);
    assert("Error adding file to DB"@.len() == 23);
    // Those of one length differ in their first character or in their seventh.
    assert("No POST params found"@[0] == 'N');
    assert("Invalid file data found"@[0] == 'I');
    assert("Specified file is empty"@[0] == 'S');
    assert("Error reading file data"@[0] == 'E');
    assert("Description too long"@[0] == 'D');
    assert("Error adding file to DB"@[0] == 'E');
    assert("Error reading file data"@[6] == 'r');
    assert("Error adding file to DB"@[6] == 'a');
    let a = refusal_text(one);
    let b = refusal_text(other);
    if a == b {
        assert(a.len() == b.len());
        assert(a[0] == b[0]);
        assert(a[6] == b[6]);
    }
}

/// The place of a file lies below the URL that its upload was answered with.
pub proof fn law_place_is_below_the_upload_url(
    config: ConfigView,
    file_id: Seq<char>,
    name: Seq<char>,
)
    ensures
        upload_answer(config, Ok(file_id)).body matches BodyView::Text(url) && place_url(
            config,
            file_id,
            name,
        ) == url + "/"@ + name,
{
}

/// A request for a file that is not known, and one for a file that is not on the disk, are
/// both answered with an error page that says so, and with different texts.
pub proof fn law_missing_files_are_not_found(config: ConfigView)
    ensures
        place_answer(config, Err(IdGetError::NotFound)).status == Status::NotFound,
        file_answer(Err(GetError::NotFound)).status == Status::NotFound,
        file_answer(Err(GetError::FileNotFound)).status == Status::NotFound,
        file_answer(Err(GetError::NotFound)) == place_answer(config, Err(IdGetError::NotFound)),
        file_answer(Err(GetError::NotFound)) != file_answer(Err(GetError::FileNotFound)),
{
    reveal_strlit("File not found");
    reveal_strlit("File not found (on disk (oh fuck))");
    assert("File not found"@.len() != "File not found (on disk (oh fuck))"@.len());
}

/// The page that lists public uploads shows each info that it was given once and in the order
/// in which it was given, and shows nothing where none could be had.
pub proof fn law_listing_page_shows_what_it_was_given(given: Seq<FileInfoView>, i: int)
    ensures
        uploads_answer(Some(given)).status == Status::Success,
        uploads_answer(Some(given)).body matches BodyView::Page { template, data } && template
            == "uploads"@ && (data matches PageDataView::Uploads { uploads } && uploads.len()
            == given.len() && (0 <= i < given.len() ==> uploads[i] == given[i])),
        uploads_answer(None).body matches BodyView::Page { template, data } && template
            == "uploads"@ && (data matches PageDataView::Uploads { uploads } && uploads.len() == 0),
{
}

/// The front page shows the counts that it was given, each in its place, and 0 for one that
/// could not be had.
pub proof fn law_front_page_shows_the_counts(all: isize, public: isize)
    ensures
        home_answer(Some(all), Some(public)).status == Status::Success,
        home_answer(Some(all), Some(public)).body matches BodyView::Page { template, data }
            && template == "index"@ && (data matches PageDataView::Home {
            uploads_count,
            public_uploads_count,
        } && uploads_count == all && public_uploads_count == public),
        home_answer(None, Some(public)) == home_answer(Some(0), Some(public)),
        home_answer(Some(all), None) == home_answer(Some(all), Some(0)),
        home_answer(None, None) == home_answer(Some(0), Some(0)),
{
}

/// The answer to a fetch that found a file holds exactly the bytes that were read, however
/// many, and says the media type of the extension that the name of the file has.
pub proof fn law_files_are_served_whole(file_info: FileInfoView, data: Seq<u8>)
    ensures
        file_answer(Ok((file_info, data))).status == Status::Success,
        file_answer(Ok((file_info, data))).body matches BodyView::File { mime, content } && content
            == data && mime == mime_of_extension(
            match path_extension_of(file_info.name) {
                Some(ext) => ext,
                None => Seq::empty(),
            },
        ),
{
}

/// An upload that was taken is answered with the URL of the service, a `/` and the id of the
/// file, so that two files have two links exactly when they have two ids.
pub proof fn law_links_tell_ids_apart(config: ConfigView, one: Seq<char>, other: Seq<char>)
    ensures
        upload_answer(config, Ok(one)).status == Status::Success,
        upload_answer(config, Ok(one)).body == BodyView::Text(config.url + "/"@ + one),
        upload_answer(config, Ok(one)) == upload_answer(config, Ok(other)) <==> one == other,
{
    let link = config.url + "/"@;
    assert((link + one).skip(link.len() as int) =~= one);
    assert((link + other).skip(link.len() as int) =~= other);
}

/// An error page shows its text and has its status.
pub proof fn law_error_pages_show_their_text(status: Status, text: Seq<char>)
    ensures
        error_response(status, text).status == status,
        error_response(status, text).body matches BodyView::Page { template, data } && template
            == "error"@ && (data matches PageDataView::Error { error } && error == text),
{
}

/// Where an upload was refused for what the client sent, the client is told so, and every
/// other refusal is the fault of the service.
pub proof fn law_refusals_lay_the_blame(error: UploadError)
    ensures
        refusal_status(error) == Status::BadRequest <==> (error == UploadError::NoPostParams
            || error == UploadError::InvalidFileData || error == UploadError::FileEmpty || error
            == UploadError::FileTooBig || error == UploadError::DescTooLong),
        refusal_status(error) != Status::BadRequest ==> refusal_status(error)
            == Status::InternalServerError,
{
}

/// A request for a known id is answered with a redirect to the URL that is read in the URL of
/// the service, the id and the name of the file with a `/` between them, where one can be.
pub proof fn law_known_ids_are_redirected(
    config: ConfigView,
    file_id: Seq<char>,
    file_info: FileInfoView,
)
    ensures
        ({
            let text = config.url + "/"@ + file_id + "/"@ + file_info.name;
            let answer = place_answer(config, Ok((file_id, file_info)));
            &&& place_is_valid(config, Ok((file_id, file_info))) <==> hosts_fit(text)
                && parsed_url(text) is Some
            &&& answer.status == Status::SeeOther
            &&& parsed_url(text) matches Some(location) ==> answer.body == BodyView::Redirect(
                location,
            )
        }),
{
}

} // verus!
