//! Reading an upload out of the parts of an HTTP request.
use vstd::prelude::*;
use vstd::string::*;
use vstd::utf8::{decode_utf8, valid_utf8};
use crate::request::{
    PostView, UploadFile, UploadFileView, UploadRequest, UploadRequestPost,
};

verus! {

/// The header that lists the addresses a request was forwarded for.
pub const FORWARDED_HEADER: &'static str = "X-Forwarded-For";

/// The value of one request parameter.
#[derive(Debug, PartialEq)]
pub enum ParamValue {
    Text(String),
    File(UploadFile),
    /// Anything that an upload makes no use of.
    Other,
}

/// A `ParamValue` over texts.
#[verifier::ext_equal]
pub enum ParamValueView {
    Text(Seq<char>),
    File(UploadFileView),
    Other,
}

impl View for ParamValue {
    type V = ParamValueView;

    open spec fn view(&self) -> ParamValueView {
        match *self {
            ParamValue::Text(text) => ParamValueView::Text(text@),
            ParamValue::File(file) => ParamValueView::File(file@),
            ParamValue::Other => ParamValueView::Other,
        }
    }
}

/// The parameters of a request by name.
#[derive(Debug, PartialEq)]
pub struct Params {
    pub values: Vec<(String, ParamValue)>,
}

impl View for Params {
    type V = Seq<(Seq<char>, ParamValueView)>;

    open spec fn view(&self) -> Seq<(Seq<char>, ParamValueView)> {
        self.values@.map_values(|entry: (String, ParamValue)| (entry.0@, entry.1@))
    }
}

/// The first value under `name`.
pub open spec fn param(params: Seq<(Seq<char>, ParamValueView)>, name: Seq<char>) -> Option<
    ParamValueView,
>
    decreases params.len(),
{
    if params.len() == 0 {
        None
    } else if params[0].0 == name {
        Some(params[0].1)
    } else {
        param(params.drop_first(), name)
    }
}

/// What an upload takes from the parameters: `file` must be a file and `desc` a text,
/// and the file is public when `public` is the text `on`.
pub open spec fn post_of(params: Seq<(Seq<char>, ParamValueView)>) -> PostView {
    PostView {
        file: match param(params, "file"@) {
            Some(ParamValueView::File(file)) => Some(file),
            _ => None,
        },
        public: param(params, "public"@) == Some(ParamValueView::Text("on"@)),
        desc: match param(params, "desc"@) {
            Some(ParamValueView::Text(desc)) => Some(desc),
            _ => None,
        },
    }
}

/// The forwarding header, if it was sent exactly once.
pub open spec fn single_header(lines: Option<Seq<Seq<u8>>>) -> Option<Seq<u8>> {
    match lines {
        Some(lines) => if lines.len() == 1 {
            Some(lines[0])
        } else {
            None
        },
        None => None,
    }
}

/// Calls `String::from_utf8`, which succeeds on UTF-8 and nothing else, and then holds
/// the characters that the bytes encode.
#[verifier::external_body]
fn text_of(bytes: Vec<u8>) -> (text: Option<String>)
    ensures
        text is Some <==> valid_utf8(bytes@),
        text matches Some(text) ==> text@ == decode_utf8(bytes@),
{
    String::from_utf8(bytes).ok()
}

impl Params {
    /// The first value under `name`.
    pub fn get(&self, name: &str) -> (value: Option<&ParamValue>)
        ensures
            match value {
                Some(value) => param(self@, name@) == Some(value@),
                None => param(self@, name@) is None,
            },
            match value {
                Some(value) => exists|i: int|
                    #![trigger self.values@[i]]
                    0 <= i < self.values@.len() && self.values@[i].0@ == name@ && (forall|j: int|
                        0 <= j < i ==> (#[trigger] self.values@[j]).0@ != name@)
                        && self.values@[i].1 == *value,
                None => forall|i: int|
                    0 <= i < self.values@.len() ==> (#[trigger] self.values@[i]).0@ != name@,
            },
    {
        let wanted = name.to_owned();
        assert(self@.skip(0) =~= self@);
        for i in 0..self.values.len()
            invariant
                wanted@ == name@,
                param(self@.skip(i as int), name@) == param(self@, name@),
                forall|j: int| 0 <= j < i ==> (#[trigger] self.values@[j]).0@ != name@,
        {
            let ghost rest = self@.skip(i as int);
            assert(rest.drop_first() =~= self@.skip(i + 1));
            if self.values[i].0 == wanted {
                return Some(&self.values[i].1);
            }
        }
        None
    }

    /// What an upload takes from the parameters.
    pub fn post(&self) -> (post: UploadRequestPost)
        ensures
            post@ == post_of(self@),
            (forall|j: int| 0 <= j < self.values@.len() ==> (#[trigger] self.values@[j]).0@ != "public"@)
                ==> !post.public,
            forall|i: int|
                #![trigger self.values@[i]]
                0 <= i < self.values@.len() && self.values@[i].0@ == "public"@ && (forall|j: int|
                    0 <= j < i ==> (#[trigger] self.values@[j]).0@ != "public"@) ==> (post.public <==> (
                self.values@[i].1 matches ParamValue::Text(text) && text@ == "on"@)),
            (forall|j: int| 0 <= j < self.values@.len() ==> (#[trigger] self.values@[j]).0@ != "file"@)
                ==> post.file is None,
            forall|i: int|
                #![trigger self.values@[i]]
                0 <= i < self.values@.len() && self.values@[i].0@ == "file"@ && (forall|j: int|
                    0 <= j < i ==> (#[trigger] self.values@[j]).0@ != "file"@) ==> match self.values@[i].1 {
                    ParamValue::File(file) => {
                        &&& post.file is Some
                        &&& post.file->0.handle == file.handle
                        &&& post.file->0.size == file.size
                        &&& post.file->0.filename.deep_view() == file.filename.deep_view()
                    },
                    _ => post.file is None,
                },
            (forall|j: int| 0 <= j < self.values@.len() ==> (#[trigger] self.values@[j]).0@ != "desc"@)
                ==> post.desc is None,
            forall|i: int|
                #![trigger self.values@[i]]
                0 <= i < self.values@.len() && self.values@[i].0@ == "desc"@ && (forall|j: int|
                    0 <= j < i ==> (#[trigger] self.values@[j]).0@ != "desc"@) ==> match self.values@[i].1 {
                    ParamValue::Text(desc) => post.desc is Some && post.desc->0@ == desc@,
                    _ => post.desc is None,
                },
    {
        let file = match self.get("file") {
            Some(ParamValue::File(file)) => Some(file.clone()),
            _ => None,
        };
        let desc = match self.get("desc") {
            Some(ParamValue::Text(desc)) => Some(desc.clone()),
            _ => None,
        };
        let public = match self.get("public") {
            Some(ParamValue::Text(toggle)) => *toggle == "on".to_owned(),
            _ => false,
        };
        UploadRequestPost { file, public, desc }
    }
}

/// The request for an upload: from the lines of `FORWARDED_HEADER`, the parameters,
/// if they could be read, and the address of the peer.
pub fn upload_request(
    forwarded: Option<Vec<Vec<u8>>>,
    params: Option<Params>,
    remote_addr: String,
) -> (req: UploadRequest)
    requires
        match single_header(forwarded.deep_view()) {
            Some(line) => valid_utf8(line),
            None => true,
        },
    ensures
        req@.xforwarded == (match single_header(forwarded.deep_view()) {
            Some(line) => Some(decode_utf8(line)),
            None => None,
        }),
        req@.post == (match params {
            Some(params) => Some(post_of(params@)),
            None => None,
        }),
        req@.ip == remote_addr@,
        req.ip == remote_addr,
        match forwarded {
            Some(lines) => if lines@.len() == 1 {
                req.xforwarded is Some && req.xforwarded->0@ == decode_utf8(lines@[0]@)
            } else {
                req.xforwarded is None
            },
            None => req.xforwarded is None,
        },
        req.post is Some <==> params is Some,
        params matches Some(params) ==> req.post matches Some(post) && {
            &&& (forall|j: int| 0 <= j < params.values@.len() ==> (#[trigger] params.values@[j]).0@ != "public"@)
                ==> !post.public
            &&& forall|i: int|
                #![trigger params.values@[i]]
                0 <= i < params.values@.len() && params.values@[i].0@ == "public"@ && (forall|j: int|
                    0 <= j < i ==> (#[trigger] params.values@[j]).0@ != "public"@) ==> (post.public <==> (
                params.values@[i].1 matches ParamValue::Text(text) && text@ == "on"@))
            &&& (forall|j: int| 0 <= j < params.values@.len() ==> (#[trigger] params.values@[j]).0@ != "file"@)
                ==> post.file is None
            &&& forall|i: int|
                #![trigger params.values@[i]]
                0 <= i < params.values@.len() && params.values@[i].0@ == "file"@ && (forall|j: int|
                    0 <= j < i ==> (#[trigger] params.values@[j]).0@ != "file"@) ==> match params.values@[i].1 {
                    ParamValue::File(file) => {
                        &&& post.file is Some
                        &&& post.file->0.handle == file.handle
                        &&& post.file->0.size == file.size
                        &&& post.file->0.filename.deep_view() == file.filename.deep_view()
                    },
                    _ => post.file is None,
                }
            &&& (forall|j: int| 0 <= j < params.values@.len() ==> (#[trigger] params.values@[j]).0@ != "desc"@)
                ==> post.desc is None
            &&& forall|i: int|
                #![trigger params.values@[i]]
                0 <= i < params.values@.len() && params.values@[i].0@ == "desc"@ && (forall|j: int|
                    0 <= j < i ==> (#[trigger] params.values@[j]).0@ != "desc"@) ==> match params.values@[i].1 {
                    ParamValue::Text(desc) => post.desc is Some && post.desc->0@ == desc@,
                    _ => post.desc is None,
                }
        },
{
    let xforwarded = match forwarded {
        Some(mut lines) if lines.len() == 1 => {
            let ghost all = lines.deep_view();
            let line = lines.pop().unwrap();
            assert(line@ =~= all[0]);
            Some(text_of(line).unwrap())
        },
        _ => None,
    };
    let post = match params {
        Some(params) => Some(params.post()),
        None => None,
    };
    UploadRequest { xforwarded, post, ip: remote_addr }
}

/// The value of a parameter is that of the first entry under its name, and there is none
/// where no entry has that name.
pub proof fn law_first_entry_decides(
    params: Seq<(Seq<char>, ParamValueView)>,
    name: Seq<char>,
    i: int,
)
    ensures
        0 <= i < params.len() && params[i].0 == name && (forall|j: int|
            0 <= j < i ==> (#[trigger] params[j]).0 != name) ==> param(params, name) == Some(
            params[i].1,
        ),
        (forall|j: int| 0 <= j < params.len() ==> (#[trigger] params[j]).0 != name) ==> param(
            params,
            name,
        ) is None,
    decreases params.len(),
{
    if params.len() > 0 && params[0].0 != name {
        let rest = params.drop_first();
        assert forall|j: int| 0 <= j < rest.len() implies rest[j] == #[trigger] params[j + 1] by {}
        law_first_entry_decides(rest, name, i - 1);
        if forall|j: int| 0 <= j < params.len() ==> (#[trigger] params[j]).0 != name {
            assert forall|j: int| 0 <= j < rest.len() implies (#[trigger] rest[j]).0 != name by {
                assert(params[j + 1].0 != name);
            }
        }
        if 0 <= i < params.len() && params[i].0 == name && (forall|j: int|
            0 <= j < i ==> (#[trigger] params[j]).0 != name) {
            assert forall|j: int| 0 <= j < i - 1 implies (#[trigger] rest[j]).0 != name by {
                assert(params[j + 1].0 != name);
            }
            assert(rest[i - 1] == params[i]);
        }
    }
}

/// An upload is public exactly when the first entry under `public` is there and is the text
/// `on`. Without such an entry it is not.
pub proof fn law_public_only_when_asked_for(params: Seq<(Seq<char>, ParamValueView)>, i: int)
    ensures
        (forall|j: int| 0 <= j < params.len() ==> (#[trigger] params[j]).0 != "public"@)
            ==> !post_of(params).public,
        0 <= i < params.len() && params[i].0 == "public"@ && (forall|j: int|
            0 <= j < i ==> (#[trigger] params[j]).0 != "public"@) ==> (post_of(params).public <==> (
        params[i].1 matches ParamValueView::Text(text) && text == "on"@)),
{
    law_first_entry_decides(params, "public"@, i);
}

/// The file of an upload is the first entry under `file`, unchanged, if that is a file.
pub proof fn law_file_is_taken_as_it_came(params: Seq<(Seq<char>, ParamValueView)>, i: int)
    ensures
        (forall|j: int| 0 <= j < params.len() ==> (#[trigger] params[j]).0 != "file"@)
            ==> post_of(params).file is None,
        0 <= i < params.len() && params[i].0 == "file"@ && (forall|j: int|
            0 <= j < i ==> (#[trigger] params[j]).0 != "file"@) ==> match params[i].1 {
            ParamValueView::File(file) => post_of(params).file == Some(file),
            _ => post_of(params).file is None,
        },
{
    law_first_entry_decides(params, "file"@, i);
}

/// The description of an upload is the first entry under `desc`, unchanged, if that is a text.
pub proof fn law_desc_is_taken_as_it_came(params: Seq<(Seq<char>, ParamValueView)>, i: int)
    ensures
        (forall|j: int| 0 <= j < params.len() ==> (#[trigger] params[j]).0 != "desc"@)
            ==> post_of(params).desc is None,
        0 <= i < params.len() && params[i].0 == "desc"@ && (forall|j: int|
            0 <= j < i ==> (#[trigger] params[j]).0 != "desc"@) ==> match params[i].1 {
            ParamValueView::Text(desc) => post_of(params).desc == Some(desc),
            _ => post_of(params).desc is None,
        },
{
    law_first_entry_decides(params, "desc"@, i);
}

/// A forwarding header counts, as it is, exactly when it was sent once.
pub proof fn law_header_counts_when_sent_once(lines: Seq<Seq<u8>>)
    ensures
        single_header(None) is None,
        lines.len() == 1 ==> single_header(Some(lines)) == Some(lines[0]),
        lines.len() != 1 ==> single_header(Some(lines)) is None,
{
}

} // verus!
