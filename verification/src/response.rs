//! What the service answers with.
use vstd::prelude::*;
use crate::db::{FileInfo, FileInfoView};

verus! {

/// The status of a response.
#[derive(Debug, Clone, Copy, PartialEq, Eq, Structural)]
pub enum Status {
    Success,
    SeeOther,
    BadRequest,
    NotFound,
    InternalServerError,
}

/// What the front page shows.
#[derive(Debug, PartialEq)]
pub struct HomePageData {
    pub uploads_count: isize,
    pub public_uploads_count: isize,
}

/// What the listing of public uploads shows.
#[derive(Debug, PartialEq)]
pub struct UploadsPageData {
    pub uploads: Vec<FileInfo>,
}

/// What an error page shows.
#[derive(Debug, PartialEq)]
pub struct ErrorPageData {
    pub error: String,
}

/// What a template is filled with.
#[derive(Debug, PartialEq)]
pub enum PageData {
    Home(HomePageData),
    Uploads(UploadsPageData),
    Error(ErrorPageData),
    Nothing,
}

/// A `PageData` over texts.
#[verifier::ext_equal]
pub enum PageDataView {
    Home { uploads_count: int, public_uploads_count: int },
    Uploads { uploads: Seq<FileInfoView> },
    Error { error: Seq<char> },
    Nothing,
}

impl View for PageData {
    type V = PageDataView;

    open spec fn view(&self) -> PageDataView {
        match *self {
            PageData::Home(data) => PageDataView::Home {
                uploads_count: data.uploads_count as int,
                public_uploads_count: data.public_uploads_count as int,
            },
            PageData::Uploads(data) => PageDataView::Uploads { uploads: data.uploads.deep_view() },
            PageData::Error(data) => PageDataView::Error { error: data.error@ },
            PageData::Nothing => PageDataView::Nothing,
        }
    }
}

/// The body of a response.
#[derive(Debug, PartialEq)]
pub enum Body {
    /// Plain text.
    Text(String),
    /// Nothing but the place to go to.
    Redirect(String),
    /// A stored file and its media type.
    File { mime: String, content: Vec<u8> },
    /// A template and what it is filled with.
    Page { template: String, data: PageData },
}

/// A `Body` over texts.
#[verifier::ext_equal]
pub enum BodyView {
    Text(Seq<char>),
    Redirect(Seq<char>),
    File { mime: Seq<char>, content: Seq<u8> },
    Page { template: Seq<char>, data: PageDataView },
}

impl View for Body {
    type V = BodyView;

    open spec fn view(&self) -> BodyView {
        match *self {
            Body::Text(text) => BodyView::Text(text@),
            Body::Redirect(location) => BodyView::Redirect(location@),
            Body::File { mime, content } => BodyView::File { mime: mime@, content: content@ },
            Body::Page { template, data } => BodyView::Page { template: template@, data: data@ },
        }
    }
}

/// An answer to a request.
#[derive(Debug, PartialEq)]
pub struct Response {
    pub status: Status,
    pub body: Body,
}

/// A `Response` over texts.
#[verifier::ext_equal]
pub struct ResponseView {
    pub status: Status,
    pub body: BodyView,
}

impl View for Response {
    type V = ResponseView;

    open spec fn view(&self) -> ResponseView {
        ResponseView { status: self.status, body: self.body@ }
    }
}

impl DeepView for Response {
    type V = ResponseView;

    open spec fn deep_view(&self) -> ResponseView {
        self@
    }
}

/// A page made of a template.
pub open spec fn page(status: Status, template: Seq<char>, data: PageDataView) -> ResponseView {
    ResponseView { status, body: BodyView::Page { template, data } }
}

/// The page that shows an error.
pub open spec fn error_response(status: Status, text: Seq<char>) -> ResponseView {
    page(status, "error"@, PageDataView::Error { error: text })
}

} // verus!
