use flup::db::{Command, FileInfo, FlupDb};
use flup::flup::{Flup, FlupConfig};
use flup::handler::FlupHandler;
use flup::request::{
    GetError, GetRequest, IdGetError, IdGetRequest, ReadError, UploadError, UploadFile,
    UploadRequest, UploadRequestPost,
};
use flup::response::Body;
use flup::upload::{forwarded_ip, Lookup, Upload};
use redis::{ErrorKind, RedisError};
use std::collections::BTreeMap;

/// What finds the content of the uploaded file.
const HANDLE: usize = 3;

/// A database, a disk, and what is to fail.
#[derive(Clone, PartialEq, Debug, Default)]
struct Service {
    hashes: BTreeMap<(String, String), FileInfo>,
    lists: BTreeMap<String, Vec<String>>,
    disk: BTreeMap<String, Vec<u8>>,
    ips: BTreeMap<String, String>,
    fail_ip: bool,
    fail_open: bool,
    fail_read: bool,
    fail_write: bool,
    fail_set: bool,
    fail_push: bool,
}

impl Service {
    fn info(&self, command: &Command) -> Option<FileInfo> {
        match command {
            Command::HGet { key, field } => {
                self.hashes.get(&(key.clone(), field.clone())).cloned()
            }
            other => panic!("{:?}", other),
        }
    }

    fn send(&mut self, command: &Command) -> Result<(), RedisError> {
        let failure = RedisError::from((ErrorKind::ResponseError, "failed"));
        match command {
            Command::HSet { key, field, value } => {
                if self.fail_set {
                    return Err(failure);
                }
                self.hashes.insert((key.clone(), field.clone()), value.clone());
            }
            Command::LPush { key, item } => {
                if self.fail_push {
                    return Err(failure);
                }
                self.lists.entry(key.clone()).or_default().insert(0, item.clone());
            }
            other => panic!("{:?}", other),
        }
        Ok(())
    }

    fn listed(&self, command: Command) -> Vec<String> {
        match command {
            Command::LRange { key, start, stop } => {
                let list = self.lists.get(&key).cloned().unwrap_or_default();
                list.into_iter().skip(start as usize).take((stop - start + 1) as usize).collect()
            }
            other => panic!("{:?}", other),
        }
    }

    fn upload(&mut self, flup: &Flup, req: UploadRequest, content: &[u8]) -> Result<String, UploadError> {
        let step = flup.upload(req)?;
        let stored = !self.fail_ip;
        if stored {
            self.ips.insert(step.uploader.clone(), step.ip.clone());
        }
        let step = flup.ip_stored(step, stored)?;
        assert_eq!(step.handle, HANDLE);
        let content = if self.fail_open {
            Err(ReadError::Open)
        } else if self.fail_read {
            Err(ReadError::Read)
        } else {
            Ok(content.to_vec())
        };
        let step = flup.upload_read(step, content)?;
        let known = self.info(&step.lookup).is_some();
        let step = match flup.upload_found(step, known) {
            Lookup::Known(file_id) => return Ok(file_id),
            Lookup::New(step) => step,
        };
        let written = !self.fail_write;
        if written {
            self.disk.insert(step.file_id.clone(), step.data.clone());
        }
        let mut step = flup.upload_written(step, written)?;
        loop {
            let reply = self.send(&step.add.command);
            step = match flup.upload_added(step, reply) {
                Upload::Send(step) => step,
                Upload::Over(result) => return result,
            };
        }
    }

    fn fetch(&self, flup: &Flup, id: &str) -> Result<(FileInfo, Vec<u8>), GetError> {
        let step = flup.file(GetRequest { file_id: id.to_string() });
        let found = self.info(&step.lookup);
        let step = flup.file_found(step, found)?;
        let data = self.disk.get(&step.file_id).cloned();
        flup.file_read(step, data)
    }

    fn place(&self, flup: &Flup, id: &str) -> Result<(String, FileInfo), IdGetError> {
        let step = flup.file_by_id(IdGetRequest { file_id: id.to_string() });
        let found = self.info(&step.lookup);
        flup.file_by_id_found(step, found)
    }
}

fn config() -> FlupConfig {
    FlupConfig {
        host: "127.0.0.1:8000".to_string(),
        url: "http://flup.example".to_string(),
        salt: "salt".to_string(),
        xforwarded: false,
        xforwarded_index: 0,
    }
}

fn flup() -> Flup {
    Flup { config: config(), db: FlupDb { key_prefix: "flup".to_string() } }
}

fn post(filename: Option<&str>, size: u64, desc: Option<&str>, public: bool) -> UploadRequest {
    UploadRequest {
        xforwarded: None,
        post: Some(UploadRequestPost {
            file: Some(UploadFile { handle: HANDLE, size, filename: filename.map(|f| f.to_string()) }),
            public,
            desc: desc.map(|d| d.to_string()),
        }),
        ip: "1.2.3.4".to_string(),
    }
}

#[test]
fn starts_with_settings() {
    let (flup, _) = Flup::new(config(), "flup".to_string()).unwrap();
    assert_eq!(flup.config, config());
    assert_eq!(flup.db.key_prefix, "flup");
}

#[test]
fn uploads_and_serves() {
    let mut service = Service::default();
    let req = post(Some("dir/greeting.txt"), 5, Some("hi"), true);
    assert_eq!(service.upload(&flup(), req, b"hello"), Ok("5d41".to_string()));
    let info = FileInfo {
        name: "greeting.txt".to_string(),
        desc: "hi".to_string(),
        file_id: "5d41".to_string(),
        uploader: "b02bc37bdebd4104a7ec4b7469cd7fc4".to_string(),
    };
    assert_eq!(service.fetch(&flup(), "5d41"), Ok((info.clone(), b"hello".to_vec())));
    assert_eq!(service.place(&flup(), "5d41"), Ok(("5d41".to_string(), info)));
    assert_eq!(service.ips["b02bc37bdebd4104a7ec4b7469cd7fc4"], "1.2.3.4");
    assert_eq!(service.listed(flup().db.get_uploads()), vec!["5d41"]);
}

#[test]
fn serves_an_upload_with_its_type() {
    let mut service = Service::default();
    service.upload(&flup(), post(Some("p.png"), 5, None, false), b"hello").unwrap();
    let handler = FlupHandler::new(flup());
    match handler.handle_file(service.fetch(&flup(), "5d41")).body {
        Body::File { mime, content: data } => {
            assert_eq!(mime, "image/png");
            assert_eq!(data, b"hello");
        }
        other => panic!("{:?}", other),
    }
}

#[test]
fn fills_in_what_was_not_sent() {
    for filename in [None, Some("")] {
        let mut service = Service::default();
        service.upload(&flup(), post(filename, 5, None, false), b"hello").unwrap();
        let (info, _) = service.fetch(&flup(), "5d41").unwrap();
        assert_eq!(info.name, "file");
        assert_eq!(info.desc, "(none)");
        assert!(service.listed(flup().db.get_uploads()).is_empty());
    }
}

#[test]
fn upload_twice_is_upload_once() {
    let mut service = Service::default();
    let first = service.upload(&flup(), post(Some("a.txt"), 5, None, true), b"hello");
    let once = service.clone();
    let again = service.upload(&flup(), post(Some("b.txt"), 5, Some("again"), true), b"hello");
    assert_eq!(first, again);
    assert_eq!(service, once);
}

#[test]
fn known_files_need_no_second_write() {
    let mut service = Service::default();
    service.upload(&flup(), post(None, 5, None, false), b"hello").unwrap();
    service.fail_write = true;
    service.fail_set = true;
    let long = "x".repeat(101);
    let again = service.upload(&flup(), post(Some(".."), 5, Some(&long), false), b"hello");
    assert_eq!(again, Ok("5d41".to_string()));
}

#[test]
fn uploads_leave_other_files_alone() {
    let mut service = Service::default();
    service.upload(&flup(), post(Some("a"), 5, None, true), b"hello").unwrap();
    let before = service.fetch(&flup(), "5d41");
    let other = service.upload(&flup(), post(Some("b"), 5, None, true), b"world").unwrap();
    assert_eq!(other, "7d79");
    assert_eq!(service.fetch(&flup(), "5d41"), before);
    assert_eq!(service.listed(flup().db.get_uploads()), vec!["7d79", "5d41"]);
}

#[test]
fn listing_stops_at_its_limit() {
    let mut service = Service::default();
    let mut ids: Vec<String> = vec![];
    let mut n: u32 = 0;
    while ids.len() < 25 {
        let content = n.to_string();
        n += 1;
        let id = service.upload(&flup(), post(None, 1, None, true), content.as_bytes()).unwrap();
        if !ids.contains(&id) {
            ids.insert(0, id);
        }
    }
    let shown = service.listed(flup().db.get_uploads());
    assert_eq!(shown.len(), 21);
    assert_eq!(shown, ids[..21].to_vec());
    let found: Vec<Option<FileInfo>> =
        flup().db.get_files(Ok(shown.clone())).unwrap().iter().map(|c| service.info(c)).collect();
    let listing = FlupDb::listing(found);
    let listed: Vec<String> = listing.into_iter().map(|info| info.file_id).collect();
    assert_eq!(listed, shown);
}

#[test]
fn no_public_file_is_listed_twice() {
    let mut service = Service::default();
    for content in ["a", "b", "a", "c", "b", "a"] {
        service.upload(&flup(), post(None, 1, None, true), content.as_bytes()).unwrap();
    }
    service.upload(&flup(), post(None, 1, None, false), b"d").unwrap();
    service.upload(&flup(), post(None, 1, None, true), b"d").unwrap();
    let shown = service.listed(flup().db.get_uploads());
    assert_eq!(shown, vec!["4a8a", "92eb", "0cc1"]);
    assert_eq!(service.hashes.len(), 4);
}

#[test]
fn the_link_of_an_upload_leads_to_the_file() {
    let mut service = Service::default();
    let handler = FlupHandler::new(flup());
    let result = service.upload(&flup(), post(Some("a b.txt"), 5, None, false), b"hello");
    let link = match handler.handle_upload(result).body {
        Body::Text(link) => link,
        other => panic!("{:?}", other),
    };
    assert_eq!(link, "http://flup.example/5d41");
    let id = link.rsplit('/').next().unwrap();
    let place = match handler.try_file_by_id(service.place(&flup(), id)).unwrap().body {
        Body::Redirect(place) => place,
        other => panic!("{:?}", other),
    };
    assert_eq!(place, link.clone() + "/a%20b.txt");
    let pieces: Vec<&str> = place.split('/').collect();
    assert_eq!(pieces[pieces.len() - 2], id);
    assert_eq!(service.fetch(&flup(), id).unwrap().1, b"hello");
}

#[test]
fn prefixes_keep_files_apart() {
    let mut service = Service::default();
    let other = Flup { config: config(), db: FlupDb { key_prefix: "other".to_string() } };
    service.upload(&flup(), post(None, 5, None, true), b"hello").unwrap();
    assert_eq!(service.fetch(&other, "5d41"), Err(GetError::NotFound));
    assert!(service.listed(other.db.get_uploads()).is_empty());
}

#[test]
fn refuses_without_parameters() {
    let req = UploadRequest { xforwarded: None, post: None, ip: "1.2.3.4".to_string() };
    assert_eq!(flup().upload(req), Err(UploadError::NoPostParams));
}

#[test]
fn refuses_when_the_address_is_not_kept() {
    let mut service = Service { fail_ip: true, ..Service::default() };
    let result = service.upload(&flup(), post(None, 0, None, false), b"hello");
    assert_eq!(result, Err(UploadError::SetIp));
}

#[test]
fn refuses_without_a_file() {
    let mut req = post(None, 5, None, false);
    req.post.as_mut().unwrap().file = None;
    let result = Service::default().upload(&flup(), req, b"hello");
    assert_eq!(result, Err(UploadError::InvalidFileData));
}

#[test]
fn refuses_by_size() {
    let result = |size: u64| {
        Service::default().upload(&flup(), post(None, size, None, false), b"hello")
    };
    assert_eq!(result(0), Err(UploadError::FileEmpty));
    assert_eq!(result(1), Ok("5d41".to_string()));
    assert_eq!(result(8388608), Ok("5d41".to_string()));
    assert_eq!(result(8388609), Err(UploadError::FileTooBig));
}

#[test]
fn refuses_what_cannot_be_read() {
    let mut service = Service { fail_open: true, ..Service::default() };
    let result = service.upload(&flup(), post(None, 5, None, false), b"hello");
    assert_eq!(result, Err(UploadError::OpenUploadFile));
    let mut service = Service { fail_read: true, ..Service::default() };
    let result = service.upload(&flup(), post(None, 5, None, false), b"hello");
    assert_eq!(result, Err(UploadError::ReadData));
}

#[test]
fn refuses_what_cannot_be_stored() {
    let mut service = Service { fail_write: true, ..Service::default() };
    let result = service.upload(&flup(), post(None, 5, None, false), b"hello");
    assert_eq!(result, Err(UploadError::WriteFile));
    let mut service = Service { fail_set: true, ..Service::default() };
    let result = service.upload(&flup(), post(None, 5, None, true), b"hello");
    assert_eq!(result, Err(UploadError::AddFile));
    assert!(service.lists.is_empty());
    let mut service = Service { fail_push: true, ..Service::default() };
    let result = service.upload(&flup(), post(None, 5, None, true), b"hello");
    assert_eq!(result, Err(UploadError::AddFile));
    let mut service = Service { fail_push: true, ..Service::default() };
    let result = service.upload(&flup(), post(None, 5, None, false), b"hello");
    assert_eq!(result, Ok("5d41".to_string()));
}

#[test]
fn refuses_long_descriptions() {
    let mut service = Service::default();
    let result = service.upload(&flup(), post(None, 5, Some(&"x".repeat(101)), false), b"hello");
    assert_eq!(result, Err(UploadError::DescTooLong));
    assert!(service.hashes.is_empty());
    assert_eq!(service.fetch(&flup(), "5d41"), Err(GetError::NotFound));
    let result = service.upload(&flup(), post(None, 5, Some(&"é".repeat(51)), false), b"hello");
    assert_eq!(result, Err(UploadError::DescTooLong));
    let result = service.upload(&flup(), post(None, 5, Some(&"x".repeat(100)), false), b"hello");
    assert_eq!(result, Ok("5d41".to_string()));
}

#[test]
fn missing_files_are_not_found() {
    let mut service = Service::default();
    assert_eq!(service.fetch(&flup(), "beef"), Err(GetError::NotFound));
    assert_eq!(service.place(&flup(), "beef"), Err(IdGetError::NotFound));
    service.upload(&flup(), post(None, 5, None, false), b"hello").unwrap();
    service.disk.clear();
    assert_eq!(service.fetch(&flup(), "5d41"), Err(GetError::FileNotFound));
}

#[test]
fn forwarded_addresses_count_from_the_end() {
    let header = "1.1.1.1, 2.2.2.2, 3.3.3.3";
    assert_eq!(forwarded_ip(header, 0), Some("3.3.3.3".to_string()));
    assert_eq!(forwarded_ip(header, 1), Some("2.2.2.2".to_string()));
    assert_eq!(forwarded_ip(header, 2), Some("1.1.1.1".to_string()));
    assert_eq!(forwarded_ip(header, 3), None);
    assert_eq!(forwarded_ip("", 0), Some("".to_string()));
}

#[test]
fn forwarded_addresses_are_used_only_when_trusted() {
    let mut flup = flup();
    let mut req = post(None, 5, None, false);
    req.xforwarded = Some("9.9.9.9, 8.8.8.8".to_string());
    assert_eq!(flup.upload(req).unwrap().ip, "1.2.3.4");
    flup.config.xforwarded = true;
    flup.config.xforwarded_index = 1;
    let mut req = post(None, 5, None, false);
    req.xforwarded = Some("9.9.9.9, 8.8.8.8".to_string());
    assert_eq!(flup.upload(req).unwrap().ip, "9.9.9.9");
    assert_eq!(flup.upload(post(None, 5, None, false)).unwrap().ip, "1.2.3.4");
}
