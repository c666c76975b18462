use flup::db::{FileInfo, FlupDb};
use flup::flup::{Flup, FlupConfig};
use flup::form::{upload_request, ParamValue, Params, FORWARDED_HEADER};
use flup::handler::FlupHandler;
use flup::request::{GetError, IdGetError, UploadError, UploadFile};
use flup::response::{
    Body, ErrorPageData, HomePageData, PageData, Response, Status, UploadsPageData,
};
use flup::url::url_is_countable;

fn handler_at(url: &str) -> FlupHandler {
    FlupHandler::new(Flup {
        config: FlupConfig {
            host: "127.0.0.1:8000".to_string(),
            url: url.to_string(),
            salt: "salt".to_string(),
            xforwarded: false,
            xforwarded_index: 0,
        },
        db: FlupDb { key_prefix: "flup".to_string() },
    })
}

fn handler() -> FlupHandler {
    handler_at("http://flup.example")
}

fn info(name: &str) -> FileInfo {
    FileInfo {
        name: name.to_string(),
        desc: "d".to_string(),
        file_id: "5d41".to_string(),
        uploader: "u".to_string(),
    }
}

fn error(status: Status, text: &str) -> Response {
    Response {
        status,
        body: Body::Page {
            template: "error".to_string(),
            data: PageData::Error(ErrorPageData { error: text.to_string() }),
        },
    }
}

#[test]
fn upload_is_answered_with_its_url() {
    let expected = Response {
        status: Status::Success,
        body: Body::Text("http://flup.example/5d41".to_string()),
    };
    assert_eq!(handler().handle_upload(Ok("5d41".to_string())), expected);
}

#[test]
fn refused_uploads_are_told_why() {
    let bad = Status::BadRequest;
    let broken = Status::InternalServerError;
    let table = [
        (UploadError::SetIp, broken, "Error adding IP to temp DB"),
        (UploadError::NoPostParams, bad, "No POST params found"),
        (UploadError::InvalidFileData, bad, "Invalid file data found"),
        (UploadError::FileEmpty, bad, "Specified file is empty"),
        (UploadError::FileTooBig, bad, "File exceeds our limit"),
        (UploadError::OpenUploadFile, broken, "Error opening uploaded file"),
        (UploadError::ReadData, broken, "Error reading file data"),
        (UploadError::WriteFile, broken, "Error writing to file"),
        (UploadError::DescTooLong, bad, "Description too long"),
        (UploadError::AddFile, broken, "Error adding file to DB"),
    ];
    for (reason, status, text) in table {
        assert_eq!(handler().handle_upload(Err(reason)), error(status, text));
    }
}

#[test]
fn known_ids_are_redirected() {
    let place = || Ok(("5d41".to_string(), info("my file.txt")));
    let expected = Response {
        status: Status::SeeOther,
        body: Body::Redirect("http://flup.example/5d41/my%20file.txt".to_string()),
    };
    assert_eq!(handler().handle_file_by_id(place()), expected);
    assert_eq!(handler().try_file_by_id(place()), Some(expected));
    let url = handler().place_url("5d41", "my file.txt");
    assert_eq!(url, "http://flup.example/5d41/my file.txt");
}

#[test]
fn redirects_go_where_they_are_told() {
    let expected =
        Response { status: Status::SeeOther, body: Body::Redirect("x".to_string()) };
    assert_eq!(handler().redirected("x".to_string()), expected);
}

#[test]
fn places_that_are_no_url_are_noticed() {
    let place = Ok(("5d41".to_string(), info("a.txt")));
    assert_eq!(handler_at("flup").try_file_by_id(place), None);
    let place = Ok(("5d41".to_string(), info("a.txt")));
    assert_eq!(handler_at("mailto:flup").try_file_by_id(place), None);
}

#[test]
fn hosts_that_cannot_be_counted_are_noticed() {
    let place = || Ok(("5d41".to_string(), info("a.txt")));
    let answer = |url: &str| handler_at(url).try_file_by_id(place());
    let far = format!("http://{}\u{fff80}", "a".repeat(4096));
    assert_eq!(answer(&far), None);
    assert_eq!(answer(&format!("http:/\t/\\/{}", &far[7..])), None);
    assert_eq!(answer(&format!("http://{}%61", "a".repeat(300))), None);
    let long = format!("http://{}", "a".repeat(300));
    let expected = Response {
        status: Status::SeeOther,
        body: Body::Redirect(long.clone() + "/5d41/a.txt"),
    };
    assert_eq!(answer(&long), Some(expected));
    assert!(answer("http://b\u{fc}cher.example").is_some());
    let below = format!("http://flup.example/{}", "\u{e9}".repeat(5000));
    assert!(answer(&below).is_some());
}

#[test]
fn hosts_are_counted_where_they_lie() {
    let long = "\u{e9}".repeat(215);
    let short = "\u{e9}".repeat(214);
    for front in ["", "http:", "http://", "http:////", "http:/\\/\n/"] {
        let rest = if front.ends_with('/') { 0 } else { front.len() };
        assert!(!url_is_countable(&format!("{}{}", front, long)));
        let fits = format!("{}{}", front, &short[2 * rest..]);
        assert!(url_is_countable(&fits), "{:?}", front);
        assert!(url_is_countable(&format!("{}/x/{}", fits, long)));
    }
    assert!(url_is_countable(&format!("http://host/{}", long)));
    assert!(url_is_countable(""));
}

#[test]
fn unknown_ids_are_not_found() {
    let expected = error(Status::NotFound, "File not found");
    assert_eq!(handler().handle_file_by_id(Err(IdGetError::NotFound)), expected);
    assert_eq!(handler_at("flup").try_file_by_id(Err(IdGetError::NotFound)), Some(expected));
}

#[test]
fn files_are_served_with_their_type() {
    let served = |name: &str| match handler().handle_file(Ok((info(name), vec![1, 2, 3]))) {
        Response { status: Status::Success, body: Body::File { mime, content: data } } => {
            assert_eq!(data, vec![1, 2, 3]);
            mime
        }
        other => panic!("{:?}", other),
    };
    assert_eq!(served("a.png"), "image/png");
    assert_eq!(served("a.TXT"), "text/plain");
    assert_eq!(served("a.tar.gif"), "image/gif");
    assert_eq!(served("a"), "application/octet-stream");
    assert_eq!(served(".png"), "application/octet-stream");
    assert_eq!(served("a."), "application/octet-stream");
    assert_eq!(served("a.nosuchtype"), "application/octet-stream");
}

#[test]
fn types_are_guessed_as_from_paths() {
    for name in ["a.png", "x/y.html", ".png", "b", "c.tar.gz", "d.", "e.JPG", "..", "f.mp3/"] {
        let expected = mime_guess::guess_mime_type(name).to_string();
        match handler().handle_file(Ok((info(name), vec![]))).body {
            Body::File { mime, .. } => assert_eq!(mime, expected, "{:?}", name),
            other => panic!("{:?}", other),
        }
    }
}

#[test]
fn served_files_keep_type_and_content() {
    let expected = Response {
        status: Status::Success,
        body: Body::File { mime: "text/x".to_string(), content: vec![7] },
    };
    assert_eq!(handler().served("text/x".to_string(), vec![7]), expected);
}

#[test]
fn missing_files_are_told_apart() {
    assert_eq!(
        handler().handle_file(Err(GetError::NotFound)),
        error(Status::NotFound, "File not found")
    );
    assert_eq!(
        handler().handle_file(Err(GetError::FileNotFound)),
        error(Status::NotFound, "File not found (on disk (oh fuck))")
    );
}

#[test]
fn front_page_shows_counts() {
    let page = |uploads_count: isize, public_uploads_count: isize| Response {
        status: Status::Success,
        body: Body::Page {
            template: "index".to_string(),
            data: PageData::Home(HomePageData { uploads_count, public_uploads_count }),
        },
    };
    assert_eq!(handler().handle_home(Some(7), Some(3)), page(7, 3));
    assert_eq!(handler().handle_home(None, Some(3)), page(0, 3));
    assert_eq!(handler().handle_home(Some(7), None), page(7, 0));
}

#[test]
fn listing_shows_uploads() {
    let page = |uploads: Vec<FileInfo>| Response {
        status: Status::Success,
        body: Body::Page {
            template: "uploads".to_string(),
            data: PageData::Uploads(UploadsPageData { uploads }),
        },
    };
    assert_eq!(handler().handle_uploads(Some(vec![info("a")])), page(vec![info("a")]));
    assert_eq!(handler().handle_uploads(None), page(vec![]));
}

#[test]
fn about_page_shows_nothing_of_its_own() {
    let expected = Response {
        status: Status::Success,
        body: Body::Page { template: "about".to_string(), data: PageData::Nothing },
    };
    assert_eq!(handler().handle_about(), expected);
}

#[test]
fn error_pages_show_their_text() {
    assert_eq!(handler().error_page(Status::NotFound, "gone"), error(Status::NotFound, "gone"));
}

fn text(value: &str) -> ParamValue {
    ParamValue::Text(value.to_string())
}

fn params(values: Vec<(&str, ParamValue)>) -> Option<Params> {
    Some(Params { values: values.into_iter().map(|(k, v)| (k.to_string(), v)).collect() })
}

#[test]
fn requests_are_read_from_their_parts() {
    assert_eq!(FORWARDED_HEADER, "X-Forwarded-For");
    let file = UploadFile { handle: 2, size: 5, filename: Some("a.txt".to_string()) };
    let values = params(vec![
        ("desc", text("hi")),
        ("file", ParamValue::File(file.clone())),
        ("public", text("on")),
    ]);
    let req = upload_request(Some(vec![b"1.1.1.1".to_vec()]), values, "peer".to_string());
    assert_eq!(req.xforwarded, Some("1.1.1.1".to_string()));
    assert_eq!(req.ip, "peer");
    let post = req.post.unwrap();
    assert_eq!(post.file, Some(file));
    assert_eq!(post.desc, Some("hi".to_string()));
    assert!(post.public);
}

#[test]
fn parameters_of_the_wrong_kind_do_not_count() {
    let file = || ParamValue::File(UploadFile { handle: 2, size: 5, filename: None });
    let values = params(vec![("desc", file()), ("file", text("x")), ("public", text("yes"))]);
    let post = upload_request(None, values, String::new()).post.unwrap();
    assert_eq!(post.file, None);
    assert_eq!(post.desc, None);
    assert!(!post.public);
    let values = params(vec![("public", ParamValue::Other), ("desc", ParamValue::Other)]);
    let post = upload_request(None, values, String::new()).post.unwrap();
    assert_eq!(post.desc, None);
    assert!(!post.public);
    let post = upload_request(None, params(vec![]), String::new()).post.unwrap();
    assert_eq!(post.file, None);
}

#[test]
fn headers_sent_more_than_once_do_not_count() {
    let lines = vec![b"1.1.1.1".to_vec(), b"2.2.2.2".to_vec()];
    assert_eq!(upload_request(Some(lines), None, String::new()).xforwarded, None);
    assert_eq!(upload_request(Some(vec![]), None, String::new()).xforwarded, None);
    let req = upload_request(None, None, String::new());
    assert_eq!(req.xforwarded, None);
    assert_eq!(req.post, None);
}

#[test]
fn headers_are_read_as_utf8() {
    let lines = vec!["ü".as_bytes().to_vec()];
    assert_eq!(upload_request(Some(lines), None, String::new()).xforwarded, Some("ü".to_string()));
}

#[test]
fn the_first_value_under_a_name_counts() {
    let values = params(vec![("a", text("1")), ("b", text("2")), ("a", text("3"))]).unwrap();
    assert_eq!(values.get("a"), Some(&text("1")));
    assert_eq!(values.get("b"), Some(&text("2")));
    assert_eq!(values.get("c"), None);
}
