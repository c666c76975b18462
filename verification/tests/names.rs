use flup::filename::{file_name, path_extension, short_name};
use flup::hash::{hash_file, hash_ip, id_of_digest};
use flup::text::split;
use std::path::Path;

#[test]
fn splits_at_every_separator() {
    assert_eq!(split("1.1.1.1, 2.2.2.2, 3.3.3.3", ", "), vec!["1.1.1.1", "2.2.2.2", "3.3.3.3"]);
    assert_eq!(split("1.1.1.1", ", "), vec!["1.1.1.1"]);
    assert_eq!(split("", ", "), vec![""]);
    assert_eq!(split(", ", ", "), vec!["", ""]);
    assert_eq!(split("a,b", ", "), vec!["a,b"]);
    assert_eq!(split("a,, b", ", "), vec!["a,", "b"]);
    assert_eq!(split("ü, é", ", "), vec!["ü", "é"]);
}

#[test]
fn splits_like_the_standard_library() {
    for sep in [", ", "/", "aa", "aba"] {
        for text in ["", "a", "aaa", "aaaa", "abababa", "a, b,c", "/x//y/", "x/aba, aa"] {
            let expected: Vec<&str> = text.split(sep).collect();
            assert_eq!(split(text, sep), expected, "{:?} at {:?}", text, sep);
        }
    }
}

#[test]
fn pieces_join_to_the_text() {
    for text in ["a, b, c", ", ,", "no separator", ", a", "a, "] {
        assert_eq!(split(text, ", ").join(", "), text);
        assert!(split(text, ", ").iter().all(|piece| !piece.contains(", ")));
    }
}

#[test]
fn file_names_are_read_like_paths() {
    let names = [
        "a", "a.txt", "a.tar.gz", ".bashrc", ".a.b", "a.", "..", ".", "/", "//", "a/", "a/.", "a/./",
        "a/..", "../a", "./a", "dir/photo.png", "/abs/dir/", "...", "..x", "x..", "a//b", "a/./b.c",
        "ünï.cödé", " ", "a b.c d", ".hidden/", "dir.d/file", "C:\\x.txt",
    ];
    for name in names {
        let path = Path::new(name);
        let expected = path.file_name().map(|n| n.to_str().unwrap().to_string());
        assert_eq!(file_name(name), expected, "{:?}", name);
        let expected = path.extension().map(|n| n.to_str().unwrap().to_string());
        assert_eq!(path_extension(name), expected, "{:?}", name);
        let expected = path.file_stem().map(|stem| match path.extension() {
            Some(ext) => format!("{}.{}", stem.to_str().unwrap(), ext.to_str().unwrap()),
            None => stem.to_str().unwrap().to_string(),
        });
        assert_eq!(short_name(name), expected, "{:?}", name);
    }
}

#[test]
fn names_are_cut() {
    let base = "b".repeat(46);
    let ext = "e".repeat(11);
    let expected = format!("{}.{}", "b".repeat(45), "e".repeat(10));
    assert_eq!(short_name(&format!("{}.{}", base, ext)), Some(expected));
    assert_eq!(short_name(&base), Some("b".repeat(45)));
    let base = "é".repeat(46);
    assert_eq!(short_name(&base), Some("é".repeat(45)));
    let exact = format!("{}.{}", "b".repeat(45), "e".repeat(10));
    assert_eq!(short_name(&exact), Some(exact));
}

#[test]
fn short_names_are_short_and_plain() {
    let long = "x".repeat(300);
    for name in ["a/b/c.txt", "x.y/z", "q", &long, &format!("{}.{}", long, long)] {
        let short = short_name(name).unwrap();
        assert!(!short.is_empty());
        assert!(short.chars().count() <= 56);
        assert!(!short.contains('/'));
    }
}

#[test]
fn short_names_keep_the_extension() {
    for name in ["a.b.c", "dir/x.jpeg", ".rc", "y.", "z"] {
        assert_eq!(path_extension(&short_name(name).unwrap()), path_extension(name));
    }
    let long = format!("a.{}", "e".repeat(30));
    assert_eq!(path_extension(&short_name(&long).unwrap()), Some("e".repeat(10)));
}

#[test]
fn file_ids_come_from_the_content() {
    assert_eq!(hash_file(b"hello"), "5d41");
    assert_eq!(hash_file(b""), "d41d");
    assert_eq!(id_of_digest("5d41402abc4b2a76b9719d911017c592"), "5d41");
}

#[test]
fn uploaders_are_hashed_with_the_salt() {
    let tag = hash_ip("salt".to_string(), "1.2.3.4".to_string());
    assert_eq!(tag, "b02bc37bdebd4104a7ec4b7469cd7fc4");
    let tag = hash_ip("pépper".to_string(), "10.0.0.1:5000".to_string());
    assert_eq!(tag, "6564936ef41683082e8bca52b58c1204");
}
