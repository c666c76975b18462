use flup::db::{AddFile, Adding, Command, FileInfo, FlupDb, StartError};
use flup::routes::{new_flup_router, Endpoint, Method};
use r2d2_redis::RedisConnectionManager;
use redis::{ErrorKind, RedisError};

fn info(id: &str) -> FileInfo {
    FileInfo {
        name: "a.txt".to_string(),
        desc: "(none)".to_string(),
        file_id: id.to_string(),
        uploader: "tag".to_string(),
    }
}

fn db() -> FlupDb {
    FlupDb { key_prefix: "flup".to_string() }
}

#[test]
fn opens_the_local_database() {
    let (db, manager) = FlupDb::new("flup".to_string()).unwrap();
    assert_eq!(db.key_prefix, "flup");
    let shown = format!("{:?}", manager);
    assert!(shown.contains("127.0.0.1"), "{}", shown);
    assert!(shown.contains("6379"), "{}", shown);
}

#[test]
fn reports_a_bad_address() {
    let manager = RedisConnectionManager::new("http://127.0.0.1/");
    match FlupDb::opened("flup".to_string(), manager) {
        Err(StartError::Redis(_)) => {}
        other => panic!("{:?}", other),
    }
}

#[test]
fn takes_a_manager() {
    let manager = RedisConnectionManager::new("redis://127.0.0.1/2");
    let (db, _) = FlupDb::opened("other".to_string(), manager).unwrap();
    assert_eq!(db.key_prefix, "other");
}

fn set() -> Command {
    Command::HSet {
        key: "flup::files".to_string(),
        field: "5d41".to_string(),
        value: info("5d41"),
    }
}

fn push() -> Command {
    Command::LPush { key: "flup::publicfiles".to_string(), item: "5d41".to_string() }
}

#[test]
fn stores_a_private_file() {
    let step = db().add_file("5d41".to_string(), info("5d41"), false);
    assert_eq!(step, AddFile { command: set(), waiting: None });
    assert_eq!(db().add_file_sent(step, Ok(())), Adding::Over(Ok(())));
}

#[test]
fn stores_a_public_file() {
    let step = db().add_file("5d41".to_string(), info("5d41"), true);
    assert_eq!(step, AddFile { command: set(), waiting: Some(push()) });
    let next = match db().add_file_sent(step, Ok(())) {
        Adding::Send(next) => next,
        other => panic!("{:?}", other),
    };
    assert_eq!(next, AddFile { command: push(), waiting: None });
    assert_eq!(db().add_file_sent(next, Ok(())), Adding::Over(Ok(())));
}

fn busy() -> RedisError {
    RedisError::from((ErrorKind::BusyLoadingError, "busy"))
}

fn moved() -> RedisError {
    RedisError::from((ErrorKind::TypeError, "moved"))
}

#[test]
fn stops_storing_at_a_failure() {
    let step = db().add_file("5d41".to_string(), info("5d41"), true);
    let first = db().add_file_sent(step, Err(busy()));
    assert_eq!(first, Adding::Over(Err(busy())));
    assert_ne!(first, Adding::Over(Err(moved())));
    let step = AddFile { command: push(), waiting: None };
    assert_eq!(db().add_file_sent(step, Err(moved())), Adding::Over(Err(moved())));
}

#[test]
fn asks_for_files() {
    let get = |id: &str| Command::HGet { key: "flup::files".to_string(), field: id.to_string() };
    assert_eq!(db().get_file("5d41".to_string()), get("5d41"));
    assert_eq!(
        db().get_files(Ok(vec!["a".to_string(), "b".to_string()])),
        Ok(vec![get("a"), get("b")])
    );
    assert_eq!(db().get_files(Ok(vec![])), Ok(vec![]));
    assert_eq!(db().get_files(Err(busy())), Err(busy()));
}

#[test]
fn asks_for_the_listing() {
    let range = Command::LRange { key: "flup::publicfiles".to_string(), start: 0, stop: 20 };
    assert_eq!(db().get_uploads(), range);
}

#[test]
fn lists_what_was_found() {
    let uploads = FlupDb::listing(vec![Some(info("a")), Some(info("b"))]);
    assert_eq!(uploads, vec![info("a"), info("b")]);
    assert_eq!(FlupDb::listing(vec![]), vec![]);
}

#[test]
fn counts_files() {
    assert_eq!(db().get_uploads_count(), Command::HLen { key: "flup::files".to_string() });
    assert_eq!(
        db().get_public_uploads_count(),
        Command::LLen { key: "flup::publicfiles".to_string() }
    );
}

#[test]
fn routes_lead_to_every_endpoint() {
    let routes = new_flup_router();
    let table: Vec<(Method, &str, Endpoint)> =
        routes.iter().map(|r| (r.method, r.glob.as_str(), r.endpoint)).collect();
    assert_eq!(
        table,
        vec![
            (Method::Post, "/", Endpoint::Upload),
            (Method::Get, "/:id", Endpoint::FileById),
            (Method::Get, "/:id/*", Endpoint::File),
            (Method::Get, "/uploads", Endpoint::Uploads),
            (Method::Get, "/about", Endpoint::About),
            (Method::Get, "/", Endpoint::Home),
        ]
    );
    for (i, one) in table.iter().enumerate() {
        for other in &table[i + 1..] {
            assert!((one.0, one.1) != (other.0, other.1));
        }
    }
}
