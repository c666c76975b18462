//! Names derived from MD5 digests: the id of a file and the tag of an uploader.
use vstd::prelude::*;
use vstd::string::*;
use vstd::utf8::encode_utf8;
use crypto::digest::Digest;
use crypto::md5::Md5;

verus! {

/// How many characters of a digest make the id of a file.
pub const FILE_ID_CHARS: usize = 4;

/// How many characters the hexadecimal form of an MD5 digest has.
pub const DIGEST_CHARS: usize = 32;

/// A digit of a hexadecimal number in lower case.
pub open spec fn is_hex_digit(c: char) -> bool {
    ('0' <= c && c <= '9') || ('a' <= c && c <= 'f')
}

/// Only lower case hexadecimal digits.
pub open spec fn is_hex(s: Seq<char>) -> bool {
    forall|i: int| 0 <= i < s.len() ==> is_hex_digit(#[trigger] s[i])
}

/// Has the form of a file id.
pub open spec fn is_file_id(s: Seq<char>) -> bool {
    s.len() == FILE_ID_CHARS && is_hex(s)
}

/// The MD5 digest of `data`, written in lower case hexadecimal.
pub uninterp spec fn md5_hex_of(data: Seq<u8>) -> Seq<char>;

/// Runs `crypto::md5::Md5` over `data`: `Md5::new`, one `input`, then `result_str`.
/// The digest depends on `data` alone; it has 128 bits and is written as two lower
/// case hexadecimal digits for each byte.
#[verifier::external_body]
fn md5_hex(data: &[u8]) -> (digest: String)
    ensures
        digest@ == md5_hex_of(data@),
        digest@.len() == DIGEST_CHARS,
        is_hex(digest@),
{
    let mut hasher = Md5::new();
    hasher.input(data);
    hasher.result_str()
}

/// The id of a file with the content `data`.
pub open spec fn file_id_of(data: Seq<u8>) -> Seq<char> {
    md5_hex_of(data).take(FILE_ID_CHARS as int)
}

/// The tag that stands for the address `ip` under `salt`.
pub open spec fn uploader_of(salt: Seq<char>, ip: Seq<char>) -> Seq<char> {
    md5_hex_of(encode_utf8(ip) + encode_utf8(salt))
}

/// The file id that a digest starts with.
pub fn id_of_digest(digest: &str) -> (id: String)
    requires
        digest@.len() >= FILE_ID_CHARS,
    ensures
        id@ == digest@.take(FILE_ID_CHARS as int),
{
    digest.substring_char(0, FILE_ID_CHARS).to_owned()
}

/// The id of a file: the first characters of the digest of its content.
pub fn hash_file(file: &[u8]) -> (id: String)
    ensures
        id@ == file_id_of(file@),
        id@ == md5_hex_of(file@).take(4),
        is_file_id(id@),
{
    id_of_digest(md5_hex(file).as_str())
}

/// The tag of an uploader: the digest of the address followed by the salt.
pub fn hash_ip(salt: String, ip: String) -> (uploader: String)
    ensures
        uploader@ == uploader_of(salt@, ip@),
        uploader@ == md5_hex_of(encode_utf8(ip@) + encode_utf8(salt@)),
        uploader@.len() == DIGEST_CHARS,
        is_hex(uploader@),
{
    let mut bytes: Vec<u8> = ip.as_str().as_bytes_vec();
    bytes.extend_from_slice(salt.as_str().as_bytes());
    assert(bytes@ =~= encode_utf8(ip@) + encode_utf8(salt@));
    md5_hex(bytes.as_slice())
}

/// The id of a file is the start of the digest of all of its content, however long it is.
pub proof fn law_ids_come_from_the_whole_content(data: Seq<u8>)
    ensures
        file_id_of(data) == md5_hex_of(data).take(4),
{
}

/// Two contents have one id exactly when their digests start with the same four digits,
/// whatever start the contents share.
pub proof fn law_ids_tell_contents_apart(one: Seq<u8>, other: Seq<u8>)
    requires
        md5_hex_of(one).len() == 32,
        md5_hex_of(other).len() == 32,
    ensures
        file_id_of(one).len() == 4,
        file_id_of(one) == file_id_of(other) <==> (forall|i: int|
            0 <= i < 4 ==> #[trigger] md5_hex_of(one)[i] == md5_hex_of(other)[i]),
{
    let a = file_id_of(one);
    let b = file_id_of(other);
    if forall|i: int| 0 <= i < 4 ==> #[trigger] md5_hex_of(one)[i] == md5_hex_of(other)[i] {
        assert(a =~= b);
    }
    if a == b {
        assert forall|i: int| 0 <= i < 4 implies #[trigger] md5_hex_of(one)[i] == md5_hex_of(
            other,
        )[i] by {
            assert(a[i] == b[i]);
        }
    }
}

/// The tag of an uploader is the digest of the whole address with the whole salt behind it:
/// one address has one tag under one salt, and two have two wherever the digests differ.
pub proof fn law_tags_tell_uploaders_apart(salt: Seq<char>, one: Seq<char>, other: Seq<char>)
    ensures
        uploader_of(salt, one) == md5_hex_of(encode_utf8(one) + encode_utf8(salt)),
        uploader_of(salt, one) == uploader_of(salt, other) <==> md5_hex_of(
            encode_utf8(one) + encode_utf8(salt),
        ) == md5_hex_of(encode_utf8(other) + encode_utf8(salt)),
{
}

} // verus!
