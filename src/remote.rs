//! Requests to the remote storage endpoint: the bearer token, the addresses
//! and headers, and the reading of its answers.

use vstd::prelude::*;
use sha2::Digest;
use crate::text::{append_decimal, dec, parse_unsigned, spec_parse_unsigned};

verus! {

/// Bearer credential: the pen's identifier and a code it produced.
#[derive(Clone, Debug)]
pub struct AuthInfo {
    pub device_id: String,
    pub totp: String,
}

/// Failures reported by the remote endpoint.
#[derive(Clone, Copy, Debug, PartialEq, Eq, Structural)]
pub enum RemoteError {
    /// The file does not exist (status 404).
    NotFound,
    /// Any other status outside 200..=299.
    Status(u16),
}

/// How `serde_json` writes one character inside a string literal: quote
/// and backslash escaped with a backslash, the control characters below
/// U+0020 as `\b`, `\t`, `\n`, `\f`, `\r` or `\u00XX` (lower-case hex),
/// every other character as itself.
pub open spec fn json_char(c: char) -> Seq<char> {
    let v = c as u32;
    if c == '"' {
        seq!['\\', '"']
    } else if c == '\\' {
        seq!['\\', '\\']
    } else if v == 8 {
        seq!['\\', 'b']
    } else if v == 9 {
        seq!['\\', 't']
    } else if v == 10 {
        seq!['\\', 'n']
    } else if v == 12 {
        seq!['\\', 'f']
    } else if v == 13 {
        seq!['\\', 'r']
    } else if v < 32 {
        seq!['\\', 'u', '0', '0', hex_digit(v as nat / 16), hex_digit(v as nat % 16)]
    } else {
        seq![c]
    }
}

/// The characters of `s`, each written as in a JSON string literal.
pub open spec fn json_escaped(s: Seq<char>) -> Seq<char>
    decreases s.len(),
{
    if s.len() == 0 {
        Seq::empty()
    } else {
        json_escaped(s.drop_last()) + json_char(s.last())
    }
}

/// The JSON string literal `serde_json` writes for `s`: its escaped
/// characters between double quotes.
pub open spec fn json_quoted(s: Seq<char>) -> Seq<char> {
    seq!['"'] + json_escaped(s) + seq!['"']
}

/// Relies on `serde_json::to_string` for a `str`: writes it as a JSON
/// string literal, quoted and escaped as `json_quoted` says; writing into
/// memory cannot fail.
#[verifier::external_body]
fn json_quote(s: &str) -> (r: String)
    ensures
        r@ == json_quoted(s@),
{
    serde_json::to_string(s).unwrap_or_default()
}

/// Upper-case hex digit of `n < 16`.
pub open spec fn hex_upper(n: nat) -> char {
    if n < 10 {
        crate::text::digit_char(n)
    } else if n == 10 {
        'A'
    } else if n == 11 {
        'B'
    } else if n == 12 {
        'C'
    } else if n == 13 {
        'D'
    } else if n == 14 {
        'E'
    } else {
        'F'
    }
}

/// Bytes that `urlencoding` leaves as they are: ASCII letters, digits and
/// `-`, `.`, `_`, `~`.
pub open spec fn url_safe(b: u8) -> bool {
    (48 <= b <= 57) || (65 <= b <= 90) || (97 <= b <= 122) || b == 45 || b == 46 || b == 95 || b == 126
}

/// Each byte of `b`: a safe byte as its character, any other as `%XX`
/// (upper-case hex).
pub open spec fn url_escape_bytes(b: Seq<u8>) -> Seq<char>
    decreases b.len(),
{
    if b.len() == 0 {
        Seq::empty()
    } else {
        let x = b.last();
        url_escape_bytes(b.drop_last()) + if url_safe(x) {
            seq![x as char]
        } else {
            seq!['%', hex_upper(x as nat / 16), hex_upper(x as nat % 16)]
        }
    }
}

/// What `urlencoding::encode` makes of `s`: its UTF-8 bytes, escaped.
pub open spec fn url_escaped(s: Seq<char>) -> Seq<char> {
    url_escape_bytes(vstd::utf8::encode_utf8(s))
}

/// Relies on `urlencoding::encode`: percent-encodes the UTF-8 bytes as
/// `url_escaped` says.
#[verifier::external_body]
fn url_escape(s: &str) -> (r: String)
    ensures
        r@ == url_escaped(s@),
{
    urlencoding::encode(s).into_owned()
}

/// The SHA-256 digest of `b`.
pub uninterp spec fn sha256_of(b: Seq<u8>) -> Seq<u8>;

/// Relies on `sha2::Sha256::digest`: the 32-byte SHA-256 digest.
#[verifier::external_body]
fn sha256(data: &[u8]) -> (r: Vec<u8>)
    ensures
        r@ == sha256_of(data@),
        r@.len() == 32,
{
    sha2::Sha256::digest(data).to_vec()
}

/// Lower-case hex digit of `n < 16`.
pub open spec fn hex_digit(n: nat) -> char {
    if n < 10 {
        crate::text::digit_char(n)
    } else if n == 10 {
        'a'
    } else if n == 11 {
        'b'
    } else if n == 12 {
        'c'
    } else if n == 13 {
        'd'
    } else if n == 14 {
        'e'
    } else {
        'f'
    }
}

/// Two lower-case hex digits per byte, high digit first.
pub open spec fn hex_text(b: Seq<u8>) -> Seq<char>
    decreases b.len(),
{
    if b.len() == 0 {
        Seq::empty()
    } else {
        hex_text(b.drop_last()).push(hex_digit(b.last() as nat / 16)).push(hex_digit(b.last() as nat % 16))
    }
}

proof fn lemma_hex_text_len(b: Seq<u8>)
    ensures
        hex_text(b).len() == 2 * b.len(),
    decreases b.len(),
{
    if b.len() > 0 {
        lemma_hex_text_len(b.drop_last());
    }
}

/// Relies on `hex::encode`: two lower-case hex digits per byte.
#[verifier::external_body]
fn to_hex(b: &[u8]) -> (r: String)
    ensures
        r@ == hex_text(b@),
{
    hex::encode(b)
}

/// The bearer token for `id` and `code`: a JSON object with keys "Id" and
/// "Totp".
pub open spec fn token_text(id: Seq<char>, code: Seq<char>) -> Seq<char> {
    "{\"Id\":"@ + json_quoted(id) + ",\"Totp\":"@ + json_quoted(code) + "}"@
}

impl AuthInfo {
    /// Value of the authorization header sent with every request.
    pub fn get_auth_header(&self) -> (r: String)
        ensures
            r@ == token_text(self.device_id@, self.totp@),
    {
        let mut s = String::from_str("{\"Id\":");
        s.append(json_quote(self.device_id.as_str()).as_str());
        s.append(",\"Totp\":");
        s.append(json_quote(self.totp.as_str()).as_str());
        s.append("}");
        s
    }
}

/// Address of a remote file: "{base}/download/{escaped path}".
pub fn download_url(base: &str, path: &str) -> (r: String)
    ensures
        r@ == base@ + "/download/"@ + url_escaped(path@),
{
    let mut s = String::from_str(base);
    s.append("/download/");
    s.append(url_escape(path).as_str());
    s
}

/// Address that opens an upload session.
pub fn upload_init_url(base: &str) -> (r: String)
    ensures
        r@ == base@ + "/upload/init"@,
{
    let mut s = String::from_str(base);
    s.append("/upload/init");
    s
}

/// Address that chunks are posted to.
pub fn upload_chunk_url(base: &str) -> (r: String)
    ensures
        r@ == base@ + "/upload/chunk"@,
{
    let mut s = String::from_str(base);
    s.append("/upload/chunk");
    s
}

/// Address that lists the chunks a session has accepted.
pub fn upload_status_url(base: &str, upload_id: &str) -> (r: String)
    ensures
        r@ == base@ + "/upload/status/"@ + upload_id@,
{
    let mut s = String::from_str(base);
    s.append("/upload/status/");
    s.append(upload_id);
    s
}

/// Address that assembles an upload.
pub fn upload_finish_url(base: &str) -> (r: String)
    ensures
        r@ == base@ + "/upload/finish"@,
{
    let mut s = String::from_str(base);
    s.append("/upload/finish");
    s
}

/// Value of the range header for bytes `start..=end`.
pub fn range_header(start: u64, end: u64) -> (r: String)
    ensures
        r@ == "bytes="@ + dec(start as nat) + "-"@ + dec(end as nat),
{
    let mut s = String::from_str("bytes=");
    append_decimal(&mut s, start);
    s.append("-");
    append_decimal(&mut s, end);
    s
}

/// Decimal text of `n`, padded with zeros to at least four digits.
pub open spec fn padded4(n: nat) -> Seq<char> {
    if n < 10 {
        "000"@ + dec(n)
    } else if n < 100 {
        "00"@ + dec(n)
    } else if n < 1000 {
        "0"@ + dec(n)
    } else {
        dec(n)
    }
}

/// File name of the multipart part carrying chunk `index`.
pub fn chunk_part_name(index: u64) -> (r: String)
    ensures
        r@ == "chunk_"@ + padded4(index as nat),
{
    let mut s = String::from_str("chunk_");
    if index < 10 {
        s.append("000");
    } else if index < 100 {
        s.append("00");
    } else if index < 1000 {
        s.append("0");
    }
    append_decimal(&mut s, index);
    s
}

/// Whether an HTTP status means success (200..=299).
pub open spec fn is_success(status: u16) -> bool {
    200 <= status <= 299
}

/// The verdict `check_status` gives.
pub open spec fn check_status_spec(status: u16) -> Result<(), RemoteError> {
    if is_success(status) {
        Ok(())
    } else if status == 404 {
        Err(RemoteError::NotFound)
    } else {
        Err(RemoteError::Status(status))
    }
}

/// The endpoint's verdict for a request answered with `status`.
pub fn check_status(status: u16) -> (r: Result<(), RemoteError>)
    ensures
        r == check_status_spec(status),
{
    if 200 <= status && status <= 299 {
        Ok(())
    } else if status == 404 {
        Err(RemoteError::NotFound)
    } else {
        Err(RemoteError::Status(status))
    }
}

/// Size of a remote file from a metadata probe answered with `status` and,
/// if present, a content-length header; a missing or unreadable length
/// counts as zero.
pub fn metadata_size(status: u16, content_length: Option<&str>) -> (r: Result<u64, RemoteError>)
    ensures
        !is_success(status) ==> r is Err && r->Err_0 == check_status_spec(status)->Err_0,
        is_success(status) ==> r is Ok && r->Ok_0 == match content_length {
            Some(t) => match spec_parse_unsigned(t@, u64::MAX as nat) {
                Some(v) => v,
                None => 0,
            },
            None => 0,
        },
{
    match check_status(status) {
        Err(e) => Err(e),
        Ok(_) => match content_length {
            Some(t) => match parse_unsigned(t, u64::MAX) {
                Some(v) => Ok(v),
                None => Ok(0),
            },
            None => Ok(0),
        },
    }
}

/// Hex SHA-256 digest of a file's contents, kept as a local integrity
/// record.
pub fn content_digest(data: &[u8]) -> (r: String)
    ensures
        r@ == hex_text(sha256_of(data@)),
        r@.len() == 64,
{
    let d = sha256(data);
    proof {
        lemma_hex_text_len(d@);
    }
    to_hex(d.as_slice())
}

} // verus!
