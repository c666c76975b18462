//! Uploading a file.
use vstd::prelude::*;
use vstd::string::*;
use vstd::utf8::encode_utf8;
use redis::RedisError;
use crate::db::{
    AddFile, Adding, Command, CommandView, FileInfo, FileInfoView, add_file_commands,
    get_file_command,
};
use crate::filename::{
    MAX_NAME_CHARS, law_last_component_decides_the_name, law_short_names_are_cut_in_both_parts,
    law_short_names_are_short_and_plain, short_name, short_name_of,
};
use crate::flup::{ConfigView, Flup};
use crate::hash::{file_id_of, hash_file, hash_ip, md5_hex_of, uploader_of};
use crate::request::{
    PostView, ReadError, UploadError, UploadRequest, UploadRequestPost, UploadRequestView, viewed,
};
use crate::text::{law_pieces_of_two_texts, law_plain_text_is_one_piece, pieces, split};

verus! {

/// The size in bytes of the largest file that is taken.
pub const MAX_FILE_SIZE: u64 = 8388608;

/// The length in bytes of the longest description that is taken.
pub const MAX_DESC_BYTES: usize = 100;

/// Do: keep `ip` under the tag `uploader`.
#[derive(Debug, PartialEq)]
pub struct StoreIp {
    pub uploader: String,
    pub ip: String,
    pub post: UploadRequestPost,
}

/// A `StoreIp` over texts.
#[verifier::ext_equal]
pub struct StoreIpView {
    pub uploader: Seq<char>,
    pub ip: Seq<char>,
    pub post: PostView,
}

impl View for StoreIp {
    type V = StoreIpView;

    open spec fn view(&self) -> StoreIpView {
        StoreIpView { uploader: self.uploader@, ip: self.ip@, post: self.post@ }
    }
}

/// Do: read the uploaded file that `handle` finds.
#[derive(Debug, PartialEq)]
pub struct ReadUpload {
    pub handle: usize,
    pub uploader: String,
    pub filename: Option<String>,
    pub public: bool,
    pub desc: Option<String>,
}

/// A `ReadUpload` over texts.
#[verifier::ext_equal]
pub struct ReadUploadView {
    pub handle: nat,
    pub uploader: Seq<char>,
    pub filename: Option<Seq<char>>,
    pub public: bool,
    pub desc: Option<Seq<char>>,
}

impl View for ReadUpload {
    type V = ReadUploadView;

    open spec fn view(&self) -> ReadUploadView {
        ReadUploadView {
            handle: self.handle as nat,
            uploader: self.uploader@,
            filename: self.filename.deep_view(),
            public: self.public,
            desc: self.desc.deep_view(),
        }
    }
}

/// Do: send `lookup`, to learn whether a file with this id is known.
#[derive(Debug, PartialEq)]
pub struct FindUpload {
    pub lookup: Command,
    pub file_id: String,
    pub data: Vec<u8>,
    pub upload: ReadUpload,
}

/// A `FindUpload` over texts.
#[verifier::ext_equal]
pub struct FindUploadView {
    pub lookup: CommandView,
    pub file_id: Seq<char>,
    pub data: Seq<u8>,
    pub upload: ReadUploadView,
}

impl View for FindUpload {
    type V = FindUploadView;

    open spec fn view(&self) -> FindUploadView {
        FindUploadView {
            lookup: self.lookup@,
            file_id: self.file_id@,
            data: self.data@,
            upload: self.upload@,
        }
    }
}

/// Do: write `data` to the file `file_id`.
#[derive(Debug, PartialEq)]
pub struct WriteUpload {
    pub file_id: String,
    pub data: Vec<u8>,
    pub upload: ReadUpload,
}

/// A `WriteUpload` over texts.
#[verifier::ext_equal]
pub struct WriteUploadView {
    pub file_id: Seq<char>,
    pub data: Seq<u8>,
    pub upload: ReadUploadView,
}

impl View for WriteUpload {
    type V = WriteUploadView;

    open spec fn view(&self) -> WriteUploadView {
        WriteUploadView { file_id: self.file_id@, data: self.data@, upload: self.upload@ }
    }
}

/// Where an upload stands once its id was looked up.
#[derive(Debug, PartialEq)]
pub enum Lookup {
    /// A file with this id is kept already; the upload is done.
    Known(String),
    /// The file is new.
    New(WriteUpload),
}

/// A `Lookup` over texts.
#[verifier::ext_equal]
pub enum LookupView {
    Known(Seq<char>),
    New(WriteUploadView),
}

impl View for Lookup {
    type V = LookupView;

    open spec fn view(&self) -> LookupView {
        match *self {
            Lookup::Known(file_id) => LookupView::Known(file_id@),
            Lookup::New(step) => LookupView::New(step@),
        }
    }
}

/// Do: send the command of `add`.
#[derive(Debug, PartialEq)]
pub struct AddUpload {
    pub add: AddFile,
    pub file_id: String,
}

/// An `AddUpload` over texts.
#[verifier::ext_equal]
pub struct AddUploadView {
    pub commands: Seq<CommandView>,
    pub file_id: Seq<char>,
}

impl View for AddUpload {
    type V = AddUploadView;

    open spec fn view(&self) -> AddUploadView {
        AddUploadView { commands: self.add@, file_id: self.file_id@ }
    }
}

/// Where an upload stands once a command was sent.
#[derive(Debug, PartialEq)]
pub enum Upload {
    /// There is more to send.
    Send(AddUpload),
    /// It is over.
    Over(Result<String, UploadError>),
}

/// An `Upload` over texts.
#[verifier::ext_equal]
pub enum UploadView {
    Send(AddUploadView),
    Over(Result<Seq<char>, UploadError>),
}

impl View for Upload {
    type V = UploadView;

    open spec fn view(&self) -> UploadView {
        match *self {
            Upload::Send(step) => UploadView::Send(step@),
            Upload::Over(result) => UploadView::Over(viewed(result)),
        }
    }
}

/// The addresses that a forwarding header lists.
pub open spec fn forwarded_ips(header: Seq<char>) -> Seq<Seq<char>> {
    pieces(header, seq![',', ' '])
}

/// The address at `index` of a forwarding header, counted from its end.
pub open spec fn forwarded_ip_of(header: Seq<char>, index: nat) -> Option<Seq<char>> {
    let ips = forwarded_ips(header);
    if index < ips.len() {
        Some(ips[ips.len() - 1 - index])
    } else {
        None
    }
}

/// The forwarding header that decides the address of the uploader, if one does.
pub open spec fn trusted_header(config: ConfigView, req: UploadRequestView) -> Option<Seq<char>> {
    if config.xforwarded {
        req.xforwarded
    } else {
        None
    }
}

/// The request carries as many forwarded addresses as the settings count on.
pub open spec fn address_is_given(config: ConfigView, req: UploadRequestView) -> bool {
    match trusted_header(config, req) {
        Some(header) => forwarded_ip_of(header, config.xforwarded_index) is Some,
        None => true,
    }
}

/// The address that counts as the uploader's.
pub open spec fn client_ip(config: ConfigView, req: UploadRequestView) -> Seq<char> {
    match trusted_header(config, req) {
        Some(header) => forwarded_ip_of(header, config.xforwarded_index)->0,
        None => req.ip,
    }
}

/// The upload was sent without a name, or its name names a file.
pub open spec fn name_is_usable(filename: Option<Seq<char>>) -> bool {
    match filename {
        Some(filename) => filename.len() != 0 ==> short_name_of(filename) is Some,
        None => true,
    }
}

/// The name that a file is kept under.
pub open spec fn kept_name(filename: Option<Seq<char>>) -> Seq<char> {
    match filename {
        Some(filename) => if filename.len() != 0 {
            short_name_of(filename)->0
        } else {
            "file"@
        },
        None => "file"@,
    }
}

/// The description is longer than what is taken.
pub open spec fn desc_is_too_long(desc: Option<Seq<char>>) -> bool {
    match desc {
        Some(desc) => encode_utf8(desc).len() > MAX_DESC_BYTES,
        None => false,
    }
}

/// The description that a file is kept with.
pub open spec fn kept_desc(desc: Option<Seq<char>>) -> Seq<char> {
    match desc {
        Some(desc) => desc,
        None => "(none)"@,
    }
}

/// How an upload starts.
pub open spec fn upload_started(config: ConfigView, req: UploadRequestView) -> Result<
    StoreIpView,
    UploadError,
> {
    match req.post {
        None => Err(UploadError::NoPostParams),
        Some(post) => {
            let ip = client_ip(config, req);
            Ok(StoreIpView { uploader: uploader_of(config.salt, ip), ip, post })
        },
    }
}

/// How an upload goes on once its address was kept, or was not.
pub open spec fn upload_checked(step: StoreIpView, stored: bool) -> Result<
    ReadUploadView,
    UploadError,
> {
    if !stored {
        Err(UploadError::SetIp)
    } else {
        match step.post.file {
            None => Err(UploadError::InvalidFileData),
            Some(file) => if file.size == 0 {
                Err(UploadError::FileEmpty)
            } else if file.size > MAX_FILE_SIZE {
                Err(UploadError::FileTooBig)
            } else {
                Ok(
                    ReadUploadView {
                        handle: file.handle,
                        uploader: step.uploader,
                        filename: file.filename,
                        public: step.post.public,
                        desc: step.post.desc,
                    },
                )
            },
        }
    }
}

/// How an upload goes on with the content of the file.
pub open spec fn upload_identified(
    prefix: Seq<char>,
    step: ReadUploadView,
    content: Result<Seq<u8>, ReadError>,
) -> Result<FindUploadView, UploadError> {
    match content {
        Err(ReadError::Open) => Err(UploadError::OpenUploadFile),
        Err(ReadError::Read) => Err(UploadError::ReadData),
        Ok(data) => Ok(
            FindUploadView {
                lookup: get_file_command(prefix, file_id_of(data)),
                file_id: file_id_of(data),
                data,
                upload: step,
            },
        ),
    }
}

/// How an upload goes on once its id was looked up.
pub open spec fn upload_looked_up(step: FindUploadView, known: bool) -> LookupView {
    if known {
        LookupView::Known(step.file_id)
    } else {
        LookupView::New(
            WriteUploadView { file_id: step.file_id, data: step.data, upload: step.upload },
        )
    }
}

/// What is kept of a new file.
pub open spec fn kept_info(step: WriteUploadView) -> FileInfoView {
    FileInfoView {
        name: kept_name(step.upload.filename),
        desc: kept_desc(step.upload.desc),
        file_id: step.file_id,
        uploader: step.upload.uploader,
    }
}

/// How an upload goes on once the file was written, or was not.
pub open spec fn upload_described(prefix: Seq<char>, step: WriteUploadView, written: bool) -> Result<
    AddUploadView,
    UploadError,
> {
    if !written {
        Err(UploadError::WriteFile)
    } else if desc_is_too_long(step.upload.desc) {
        Err(UploadError::DescTooLong)
    } else {
        Ok(
            AddUploadView {
                commands: add_file_commands(
                    prefix,
                    step.file_id,
                    kept_info(step),
                    step.upload.public,
                ),
                file_id: step.file_id,
            },
        )
    }
}

/// What an upload ends in once the file was added, or was not.
pub open spec fn upload_ended(file_id: Seq<char>, added: bool) -> Result<Seq<char>, UploadError> {
    if added {
        Ok(file_id)
    } else {
        Err(UploadError::AddFile)
    }
}

/// How an upload goes on once a command succeeded, or failed.
pub open spec fn upload_sent(step: AddUploadView, success: bool) -> UploadView {
    if success && step.commands.len() > 1 {
        UploadView::Send(
            AddUploadView { commands: step.commands.drop_first(), file_id: step.file_id },
        )
    } else {
        UploadView::Over(upload_ended(step.file_id, success))
    }
}

/// The address at `index` of a forwarding header, counted from its end.
pub fn forwarded_ip(header: &str, index: usize) -> (ip: Option<String>)
    ensures
        ip.deep_view() == forwarded_ip_of(header@, index as nat),
        match ip {
            Some(ip) => {
                let ips = pieces(header@, seq![',', ' ']);
                index < ips.len() && ip@ == ips[ips.len() - 1 - index]
            },
            None => index >= pieces(header@, seq![',', ' ']).len(),
        },
{
    proof {
        reveal_strlit(", ");
        assert(", "@ =~= seq![',', ' ']);
    }
    let ips = split(header, ", ");
    let count: usize = ips.len();
    if index < count {
        let i: usize = count - 1 - index;
        Some(ips[i].clone())
    } else {
        None
    }
}

impl Flup {
    /// Starts an upload.
    pub fn upload(&self, req: UploadRequest) -> (step: Result<StoreIp, UploadError>)
        requires
            req.post is Some ==> address_is_given(self.config@, req@),
        ensures
            viewed(step) == upload_started(self.config@, req@),
            match req.post {
                None => step == Err::<StoreIp, _>(UploadError::NoPostParams),
                Some(post) => step matches Ok(step) && {
                    &&& step.post == post
                    &&& !self.config.xforwarded || req.xforwarded is None ==> step.ip@ == req.ip@
                    &&& self.config.xforwarded && req.xforwarded is Some ==> {
                        let ips = pieces(req.xforwarded->0@, seq![',', ' ']);
                        &&& self.config.xforwarded_index < ips.len()
                        &&& step.ip@ == ips[ips.len() - 1 - self.config.xforwarded_index]
                    }
                    &&& step.uploader@ == md5_hex_of(
                        encode_utf8(step.ip@) + encode_utf8(self.config.salt@),
                    )
                },
            },
    {
        let post = match req.post {
            Some(post) => post,
            None => return Err(UploadError::NoPostParams),
        };
        let ip = match req.xforwarded {
            Some(header) if self.config.xforwarded => {
                forwarded_ip(header.as_str(), self.config.xforwarded_index).unwrap()
            },
            _ => req.ip,
        };
        let uploader = hash_ip(self.config.salt.clone(), ip.clone());
        Ok(StoreIp { uploader, ip, post })
    }

    /// Goes on with an upload whose address was kept, or was not.
    pub fn ip_stored(&self, step: StoreIp, stored: bool) -> (next: Result<ReadUpload, UploadError>)
        ensures
            viewed(next) == upload_checked(step@, stored),
            !stored ==> next == Err::<ReadUpload, _>(UploadError::SetIp),
            stored ==> match step.post.file {
                None => next == Err::<ReadUpload, _>(UploadError::InvalidFileData),
                Some(file) => if file.size == 0 {
                    next == Err::<ReadUpload, _>(UploadError::FileEmpty)
                } else if file.size > 8388608 {
                    next == Err::<ReadUpload, _>(UploadError::FileTooBig)
                } else {
                    next matches Ok(next) && {
                        &&& next.handle == file.handle
                        &&& next.uploader == step.uploader
                        &&& next.filename == file.filename
                        &&& next.public == step.post.public
                        &&& next.desc == step.post.desc
                    }
                },
            },
    {
        if !stored {
            return Err(UploadError::SetIp);
        }
        let file = match step.post.file {
            Some(file) => file,
            None => return Err(UploadError::InvalidFileData),
        };
        if file.size == 0 {
            return Err(UploadError::FileEmpty);
        } else if file.size > MAX_FILE_SIZE {
            return Err(UploadError::FileTooBig);
        }
        Ok(
            ReadUpload {
                handle: file.handle,
                uploader: step.uploader,
                filename: file.filename,
                public: step.post.public,
                desc: step.post.desc,
            },
        )
    }

    /// Goes on with an upload whose content was read, or was not.
    pub fn upload_read(&self, step: ReadUpload, content: Result<Vec<u8>, ReadError>) -> (next: Result<
        FindUpload,
        UploadError,
    >)
        ensures
            viewed(next) == upload_identified(self.db@, step@, viewed(content)),
            match content {
                Err(ReadError::Open) => next == Err::<FindUpload, _>(UploadError::OpenUploadFile),
                Err(ReadError::Read) => next == Err::<FindUpload, _>(UploadError::ReadData),
                Ok(data) => next matches Ok(next) && {
                    &&& next.data == data
                    &&& next.upload == step
                    &&& next.file_id@ == md5_hex_of(data@).take(4)
                    &&& next.lookup matches Command::HGet { key, field } && key@
                        == self.db.key_prefix@ + "::files"@ && field@ == next.file_id@
                },
            },
    {
        match content {
            Ok(data) => {
                let file_id = hash_file(data.as_slice());
                let lookup = self.db.get_file(file_id.clone());
                Ok(FindUpload { lookup, file_id, data, upload: step })
            },
            Err(ReadError::Read) => Err(UploadError::ReadData),
            Err(ReadError::Open) => Err(UploadError::OpenUploadFile),
        }
    }

    /// Goes on with an upload once it is known whether a file with its id is kept.
    pub fn upload_found(&self, step: FindUpload, known: bool) -> (next: Lookup)
        ensures
            next@ == upload_looked_up(step@, known),
            known ==> next == Lookup::Known(step.file_id),
            !known ==> (next matches Lookup::New(next) && {
                &&& next.file_id == step.file_id
                &&& next.data == step.data
                &&& next.upload == step.upload
            }),
    {
        if known {
            Lookup::Known(step.file_id)
        } else {
            Lookup::New(
                WriteUpload { file_id: step.file_id, data: step.data, upload: step.upload },
            )
        }
    }

    /// Goes on with an upload whose content was written, or was not.
    pub fn upload_written(&self, step: WriteUpload, written: bool) -> (next: Result<
        AddUpload,
        UploadError,
    >)
        requires
            written ==> name_is_usable(step@.upload.filename),
        ensures
            viewed(next) == upload_described(self.db@, step@, written),
            !written ==> next == Err::<AddUpload, _>(UploadError::WriteFile),
            written && step.upload.desc is Some && encode_utf8(step.upload.desc->0@).len() > 100
                ==> next == Err::<AddUpload, _>(UploadError::DescTooLong),
            written && (step.upload.desc is None || encode_utf8(step.upload.desc->0@).len() <= 100)
                ==> (next matches Ok(next) && {
                &&& next.file_id == step.file_id
                &&& next.add.command matches Command::HSet { key, field, value } && {
                    &&& key@ == self.db.key_prefix@ + "::files"@
                    &&& field@ == step.file_id@
                    &&& value.file_id@ == step.file_id@
                    &&& value.uploader@ == step.upload.uploader@
                    &&& value.desc@ == match step.upload.desc {
                        Some(desc) => desc@,
                        None => "(none)"@,
                    }
                    &&& match step.upload.filename {
                        Some(filename) => if filename@.len() > 0 {
                            short_name_of(filename@) == Some(value.name@)
                        } else {
                            value.name@ == "file"@
                        },
                        None => value.name@ == "file"@,
                    }
                }
                &&& next.add.waiting is Some <==> step.upload.public
                &&& next.add.waiting matches Some(push) ==> push matches Command::LPush {
                    key,
                    item,
                } && key@ == self.db.key_prefix@ + "::publicfiles"@ && item@ == step.file_id@
            }),
    {
        if !written {
            return Err(UploadError::WriteFile);
        }
        let name = match &step.upload.filename {
            Some(filename) if !filename.as_str().is_empty() => {
                short_name(filename.as_str()).unwrap()
            },
            _ => "file".to_owned(),
        };
        let desc = match step.upload.desc {
            Some(desc) => {
                if desc.as_str().as_bytes().len() > MAX_DESC_BYTES {
                    return Err(UploadError::DescTooLong);
                }
                desc
            },
            None => "(none)".to_owned(),
        };
        let file_info = FileInfo {
            name,
            desc,
            file_id: step.file_id.clone(),
            uploader: step.upload.uploader,
        };
        let add = self.db.add_file(step.file_id.clone(), file_info, step.upload.public);
        Ok(AddUpload { add, file_id: step.file_id })
    }

    /// Goes on with an upload after a command succeeded, or failed.
    pub fn upload_added(&self, step: AddUpload, reply: Result<(), RedisError>) -> (next: Upload)
        ensures
            next@ == upload_sent(step@, reply is Ok),
            reply is Err ==> next == Upload::Over(Err(UploadError::AddFile)),
            reply is Ok && step.add.waiting is None ==> next == Upload::Over(Ok(step.file_id)),
            reply is Ok && step.add.waiting is Some ==> (next matches Upload::Send(next) && {
                &&& next.file_id == step.file_id
                &&& next.add.command == step.add.waiting->0
                &&& next.add.waiting is None
            }),
    {
        match self.db.add_file_sent(step.add, reply) {
            Adding::Send(add) => Upload::Send(AddUpload { add, file_id: step.file_id }),
            Adding::Over(Ok(_)) => Upload::Over(Ok(step.file_id)),
            Adding::Over(Err(_)) => Upload::Over(Err(UploadError::AddFile)),
        }
    }
}

/// What came of the things that an upload has done outside.
pub struct Outcomes {
    pub ip_stored: bool,
    pub content: Result<Seq<u8>, ReadError>,
    pub known: bool,
    pub written: bool,
    /// How many commands succeed until one fails.
    pub sent: nat,
}

/// What an upload ends in from when its commands are sent on.
pub open spec fn upload_tail(step: AddUploadView, sent: nat) -> Result<Seq<char>, UploadError>
    decreases step.commands.len(),
{
    match upload_sent(step, sent > 0) {
        UploadView::Send(next) => if next.commands.len() < step.commands.len() {
            upload_tail(next, (sent - 1) as nat)
        } else {
            Err(UploadError::AddFile)
        },
        UploadView::Over(result) => result,
    }
}

/// An upload whose commands are sent ends in success when all of them succeed.
pub(crate) proof fn lemma_upload_tail(step: AddUploadView, sent: nat)
    requires
        step.commands.len() > 0,
    ensures
        upload_tail(step, sent) == upload_ended(step.file_id, sent >= step.commands.len()),
    decreases step.commands.len(),
{
    if sent > 0 && step.commands.len() > 1 {
        let next = AddUploadView { commands: step.commands.drop_first(), file_id: step.file_id };
        lemma_upload_tail(next, (sent - 1) as nat);
    }
}

/// How many commands store the file that a request brings.
pub open spec fn commands_needed(req: UploadRequestView) -> nat {
    if req.post->0.public {
        2
    } else {
        1
    }
}

/// The whole course of an upload.
pub open spec fn upload_run(
    config: ConfigView,
    prefix: Seq<char>,
    req: UploadRequestView,
    outcomes: Outcomes,
) -> Result<Seq<char>, UploadError> {
    match upload_started(config, req) {
        Err(error) => Err(error),
        Ok(step) => match upload_checked(step, outcomes.ip_stored) {
            Err(error) => Err(error),
            Ok(step) => match upload_identified(prefix, step, outcomes.content) {
                Err(error) => Err(error),
                Ok(step) => match upload_looked_up(step, outcomes.known) {
                    LookupView::Known(file_id) => Ok(file_id),
                    LookupView::New(step) => match upload_described(
                        prefix,
                        step,
                        outcomes.written,
                    ) {
                        Err(error) => Err(error),
                        Ok(step) => upload_tail(step, outcomes.sent),
                    },
                },
            },
        },
    }
}

/// An upload comes to the naming of its file: the file is new, and was written.
pub open spec fn name_is_read(req: UploadRequestView, outcomes: Outcomes) -> bool {
    &&& outcomes.ip_stored
    &&& file_is_taken(req)
    &&& outcomes.content is Ok
    &&& !outcomes.known
    &&& outcomes.written
}

/// The request can be uploaded: it carries the addresses that the settings count on, and the
/// name of its file is usable where it is read.
pub open spec fn upload_can_run(config: ConfigView, req: UploadRequestView, outcomes: Outcomes) -> bool {
    &&& req.post is Some ==> address_is_given(config, req)
    &&& name_is_read(req, outcomes) ==> name_is_usable(req.post->0.file->0.filename)
}

/// The end of the course of an upload that sends commands.
proof fn lemma_upload_run(
    config: ConfigView,
    prefix: Seq<char>,
    req: UploadRequestView,
    outcomes: Outcomes,
)
    ensures
        name_is_read(req, outcomes) && !desc_is_too_long(req.post->0.desc)
            ==> upload_run(config, prefix, req, outcomes) == upload_ended(
            file_id_of(outcomes.content->Ok_0),
            outcomes.sent >= commands_needed(req),
        ),
{
    if file_is_taken(req) && outcomes.content is Ok {
        let step = upload_checked(upload_started(config, req)->Ok_0, true)->Ok_0;
        let step = upload_identified(prefix, step, outcomes.content)->Ok_0;
        let step = upload_looked_up(step, false)->New_0;
        let step = upload_described(prefix, step, true);
        if step is Ok {
            lemma_upload_tail(step->Ok_0, outcomes.sent);
        }
    }
}

/// The request brings a file whose size is within the limits.
pub open spec fn file_is_taken(req: UploadRequestView) -> bool {
    &&& req.post is Some
    &&& req.post->0.file is Some
    &&& 0 < req.post->0.file->0.size <= MAX_FILE_SIZE
}

/// An upload ends in success when its parameters are there, its address was kept, its
/// file is neither empty nor too big and was read, and it is either known or was written,
/// has a description that is not too long, and was added. Its id then depends on the
/// content alone.
pub proof fn law_when_uploads_succeed(
    config: ConfigView,
    prefix: Seq<char>,
    req: UploadRequestView,
    outcomes: Outcomes,
)
    requires
        upload_can_run(config, req, outcomes),
    ensures
        ({
            let result = upload_run(config, prefix, req, outcomes);
            &&& result is Ok <==> {
                &&& outcomes.ip_stored
                &&& file_is_taken(req)
                &&& outcomes.content is Ok
                &&& outcomes.known || (outcomes.written && !desc_is_too_long(req.post->0.desc)
                    && outcomes.sent >= commands_needed(req))
            }
            &&& result matches Ok(file_id) ==> file_id == file_id_of(outcomes.content->Ok_0)
        }),
{
    lemma_upload_run(config, prefix, req, outcomes);
}

/// Which error an upload ends in: the first thing that is wrong decides, and a file that
/// is known already can only fail before it is looked up.
pub proof fn law_which_error_uploads_end_in(
    config: ConfigView,
    prefix: Seq<char>,
    req: UploadRequestView,
    outcomes: Outcomes,
)
    requires
        upload_can_run(config, req, outcomes),
    ensures
        ({
            let result = upload_run(config, prefix, req, outcomes);
            let ip_kept = req.post is Some && outcomes.ip_stored;
            let taken = ip_kept && file_is_taken(req);
            let fresh = taken && outcomes.content is Ok && !outcomes.known;
            let kept = fresh && outcomes.written;
            let told = kept && !desc_is_too_long(req.post->0.desc);
            &&& result == Err::<Seq<char>, _>(UploadError::NoPostParams) <==> req.post is None
            &&& result == Err::<Seq<char>, _>(UploadError::SetIp) <==> req.post is Some
                && !outcomes.ip_stored
            &&& result == Err::<Seq<char>, _>(UploadError::InvalidFileData) <==> ip_kept
                && req.post->0.file is None
            &&& result == Err::<Seq<char>, _>(UploadError::FileEmpty) <==> ip_kept
                && req.post->0.file is Some && req.post->0.file->0.size == 0
            &&& result == Err::<Seq<char>, _>(UploadError::FileTooBig) <==> ip_kept
                && req.post->0.file is Some && req.post->0.file->0.size > MAX_FILE_SIZE
            &&& result == Err::<Seq<char>, _>(UploadError::OpenUploadFile) <==> taken
                && outcomes.content == Err::<Seq<u8>, _>(ReadError::Open)
            &&& result == Err::<Seq<char>, _>(UploadError::ReadData) <==> taken
                && outcomes.content == Err::<Seq<u8>, _>(ReadError::Read)
            &&& result == Err::<Seq<char>, _>(UploadError::WriteFile) <==> fresh
                && !outcomes.written
            &&& result == Err::<Seq<char>, _>(UploadError::DescTooLong) <==> kept
                && desc_is_too_long(req.post->0.desc)
            &&& result == Err::<Seq<char>, _>(UploadError::AddFile) <==> told
                && outcomes.sent < commands_needed(req)
        }),
{
    lemma_upload_run(config, prefix, req, outcomes);
}

/// A name that is kept is not empty, stays within the limits, and can stand in a path.
pub(crate) proof fn lemma_kept_name_is_plain(filename: Option<Seq<char>>)
    requires
        name_is_usable(filename),
    ensures
        0 < kept_name(filename).len() <= MAX_NAME_CHARS,
        !kept_name(filename).contains('/'),
{
    reveal_strlit("file");
    match filename {
        Some(filename) => if filename.len() != 0 {
            law_short_names_are_short_and_plain(filename);
        },
        None => {},
    }
}

/// What is kept of a file that was sent with a usable name and a description that is not
/// too long stays within the limits, and its name can stand in a path.
pub proof fn law_kept_info_is_bounded(step: WriteUploadView)
    requires
        name_is_usable(step.upload.filename),
        !desc_is_too_long(step.upload.desc),
    ensures
        0 < kept_info(step).name.len() <= MAX_NAME_CHARS,
        !kept_info(step).name.contains('/'),
        encode_utf8(kept_info(step).desc).len() <= MAX_DESC_BYTES,
{
    reveal_strlit("(none)");
    lemma_kept_name_is_plain(step.upload.filename);
    vstd::utf8::is_ascii_chars_encode_utf8("(none)"@);
}

/// Addresses in a forwarding header count from its end: the last one has the index 0, and the
/// others have one index more than in the header without it.
pub proof fn law_forwarded_addresses_count_from_the_end(
    front: Seq<char>,
    last: Seq<char>,
    index: nat,
)
    requires
        forall|i: int|
            0 <= i && i + 2 <= last.len() ==> #[trigger] last.subrange(i, i + 2) != seq![',', ' '],
    ensures
        forwarded_ip_of(last, 0) == Some(last),
        forwarded_ip_of(last, index + 1) is None,
        forwarded_ip_of(front + seq![',', ' '] + last, 0) == Some(last),
        forwarded_ip_of(front + seq![',', ' '] + last, index + 1) == forwarded_ip_of(front, index),
{
    let sep = seq![',', ' '];
    assert forall|k: int| 0 < k < sep.len() implies #[trigger] sep.skip(k) != sep.take(
        sep.len() - k,
    ) by {
        assert(sep.skip(k)[0] == ' ');
        assert(sep.take(sep.len() - k)[0] == ',');
    }
    law_pieces_of_two_texts(front, sep, last);
    law_plain_text_is_one_piece(last, sep);
}

/// The address of an uploader is that of the peer, unless forwarding headers are trusted and
/// one was sent: then it is the address in the header that the settings ask for.
pub proof fn law_whose_address_counts(config: ConfigView, req: UploadRequestView)
    ensures
        !config.xforwarded ==> client_ip(config, req) == req.ip,
        req.xforwarded is None ==> client_ip(config, req) == req.ip,
        config.xforwarded && req.xforwarded is Some && address_is_given(config, req)
            ==> forwarded_ip_of(req.xforwarded->0, config.xforwarded_index) == Some(
            client_ip(config, req),
        ),
        address_is_given(config, req) <==> (config.xforwarded && req.xforwarded is Some
            ==> forwarded_ip_of(req.xforwarded->0, config.xforwarded_index) is Some),
{
}

/// An upload goes through its first steps with everything that the request brought: its tag
/// is the digest of the address and the salt, and its file, if it has between 1 and 8388608
/// bytes, is read with the name, the description and the wish to be public that came with it.
pub proof fn law_upload_carries_the_request_along(config: ConfigView, req: UploadRequestView)
    requires
        req.post is Some,
        req.post->0.file is Some,
        0 < req.post->0.file->0.size <= 8388608,
    ensures
        ({
            let post = req.post->0;
            let ip = client_ip(config, req);
            let step = upload_started(config, req)->Ok_0;
            &&& upload_started(config, req) is Ok
            &&& step.ip == ip
            &&& step.uploader == md5_hex_of(encode_utf8(ip) + encode_utf8(config.salt))
            &&& step.post == post
            &&& upload_checked(step, true) matches Ok(next) && {
                &&& next.uploader == step.uploader
                &&& next.handle == post.file->0.handle
                &&& next.filename == post.file->0.filename
                &&& next.desc == post.desc
                &&& next.public == post.public
            }
        }),
{
}

/// What is read of an uploaded file is what is identified and then written, all of it, under
/// the start of its digest.
pub proof fn law_content_is_written_as_it_was_read(
    prefix: Seq<char>,
    step: ReadUploadView,
    data: Seq<u8>,
)
    ensures
        upload_identified(prefix, step, Ok(data)) matches Ok(next) && {
            &&& next.file_id == md5_hex_of(data).take(4)
            &&& next.data == data
            &&& next.upload == step
            &&& upload_looked_up(next, true) == LookupView::Known(next.file_id)
            &&& upload_looked_up(next, false) matches LookupView::New(last) && {
                &&& last.file_id == next.file_id
                &&& last.data == data
                &&& last.upload == step
            }
        },
{
}

/// A description of at most 100 bytes is kept exactly as it was sent, a longer one is refused,
/// and where none was sent `(none)` is kept.
pub proof fn law_descriptions_are_kept_as_sent(step: WriteUploadView, desc: Seq<char>)
    ensures
        step.upload.desc == Some(desc) && encode_utf8(desc).len() <= 100 ==> {
            &&& !desc_is_too_long(step.upload.desc)
            &&& kept_info(step).desc == desc
        },
        step.upload.desc == Some(desc) && encode_utf8(desc).len() > 100 ==> desc_is_too_long(
            step.upload.desc,
        ),
        step.upload.desc is None ==> {
            &&& !desc_is_too_long(step.upload.desc)
            &&& kept_info(step).desc == "(none)"@
        },
{
}

/// A name is kept short, and `file` is kept where none was sent. The id and the tag of the
/// uploader are kept as they are.
pub proof fn law_names_and_ids_are_kept(step: WriteUploadView, filename: Seq<char>)
    ensures
        kept_info(step).file_id == step.file_id,
        kept_info(step).uploader == step.upload.uploader,
        step.upload.filename is None ==> kept_info(step).name == "file"@ && name_is_usable(
            step.upload.filename,
        ),
        step.upload.filename == Some(filename) && filename.len() == 0 ==> kept_info(step).name
            == "file"@ && name_is_usable(step.upload.filename),
        step.upload.filename == Some(filename) && filename.len() > 0 ==> {
            &&& name_is_usable(step.upload.filename) <==> short_name_of(filename) is Some
            &&& short_name_of(filename) matches Some(name) ==> kept_info(step).name == name
        },
{
}

/// A name without directories, of at most 45 characters before its extension and at most 10
/// in it, is kept exactly as it was sent.
pub proof fn law_ordinary_names_are_kept_as_sent(
    step: WriteUploadView,
    base: Seq<char>,
    ext: Seq<char>,
)
    requires
        0 < base.len() <= 45,
        ext.len() <= 10,
        !base.contains('/'),
        !ext.contains('/'),
        !ext.contains('.'),
        base != seq!['.'] || ext.len() > 0,
        step.upload.filename == Some(base + seq!['.'] + ext),
    ensures
        kept_info(step).name == base + seq!['.'] + ext,
{
    let name = base + seq!['.'] + ext;
    assert forall|i: int| 0 <= i < name.len() implies name[i] != '/' by {
        if i < base.len() {
            assert(name[i] == base[i]);
        } else if i > base.len() {
            assert(name[i] == ext[i - base.len() - 1]);
        }
    }
    if name == seq!['.', '.'] {
        assert(name.len() == 2);
        assert(base =~= seq!['.']) by {
            assert(base[0] == name[0]);
        }
    }
    law_last_component_decides_the_name(Seq::empty(), name);
    law_short_names_are_cut_in_both_parts(name, base, ext);
}

/// A new file is added by one command that puts its info under its id, and, exactly when it
/// is public, a second one that puts its id in front of the public ids.
pub proof fn law_new_files_are_added_under_their_id(prefix: Seq<char>, step: WriteUploadView)
    requires
        !desc_is_too_long(step.upload.desc),
    ensures
        upload_described(prefix, step, true) matches Ok(next) && {
            &&& next.file_id == step.file_id
            &&& next.commands.len() == if step.upload.public {
                2int
            } else {
                1
            }
            &&& next.commands[0] == CommandView::HSet {
                key: prefix + "::files"@,
                field: step.file_id,
                value: kept_info(step),
            }
            &&& step.upload.public ==> next.commands[1] == CommandView::LPush {
                key: prefix + "::publicfiles"@,
                item: step.file_id,
            }
        },
        upload_described(prefix, step, false) == Err::<AddUploadView, _>(UploadError::WriteFile),
{
}

} // verus!
