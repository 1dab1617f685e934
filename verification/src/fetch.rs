//! The decisions of the HTTP client: pacing, retries, and what a response's
//! body is taken to be; and reading a downloaded `.torrent` file.

use vstd::prelude::*;
use vstd::utf8::valid_utf8;
use crate::scrape::{ScrapeError, ScrapeErrorV};

verus! {

/// The least time between two requests, in milliseconds (the index's robots.txt).
pub const REQUEST_INTERVAL_MS: u64 = 5000;

/// How long to wait before a request, given the milliseconds since the last
/// one: the rest of the interval, or nothing once it has passed.
pub fn request_delay_ms(since_millis: u128) -> (r: Option<u64>)
    ensures
        since_millis < 5000 ==> r == Some((5000 - since_millis) as u64),
        since_millis >= 5000 ==> r is None,
{
    if since_millis < 5000 {
        Some(5000u64 - since_millis as u64)
    } else {
        None
    }
}

/// What to do with a response, by its status.
#[derive(Debug, Clone, Copy, PartialEq, Eq, Structural)]
pub enum ResponseAction {
    /// A success: read the body.
    Read,
    /// Too many requests, or a gateway timeout: retry on a new circuit.
    Retry,
    /// Any other status: give up.
    Fail,
}

/// What to do with a response, by its status.
pub fn response_action(status: u16) -> (r: ResponseAction)
    ensures
        r == (if 200 <= status <= 299 {
            ResponseAction::Read
        } else if status == 429 || status == 504 {
            ResponseAction::Retry
        } else {
            ResponseAction::Fail
        }),
{
    if 200 <= status && status <= 299 {
        ResponseAction::Read
    } else if status == 429 || status == 504 {
        ResponseAction::Retry
    } else {
        ResponseAction::Fail
    }
}

/// Whether a `content-encoding` header announces gzip.
pub fn is_gzip(content_encoding: Option<&str>) -> (r: bool)
    ensures
        r == (content_encoding matches Some(s) && s@ == "gzip"@),
{
    match content_encoding {
        Some(s) => crate::text::str_eq(s, "gzip"),
        None => false,
    }
}

/// What `flate2`'s gzip decoder reads from the bytes: the decompressed
/// bytes, or the message of its error.
pub uninterp spec fn gzip_decompress(data: Seq<u8>) -> Result<Seq<u8>, Seq<char>>;

/// `flate2::read::GzDecoder` read to its end; an error is given by its message.
#[verifier::external_body]
fn gunzip(data: &[u8]) -> (r: Result<Vec<u8>, String>)
    ensures
        match gzip_decompress(data@) {
            Ok(v) => r is Ok && r->Ok_0@ == v,
            Err(m) => r is Err && r->Err_0@ == m,
        },
{
    let mut buf = Vec::new();
    std::io::Read::read_to_end(&mut flate2::read::GzDecoder::new(data), &mut buf).map(
        |_| buf,
    ).map_err(|e| e.to_string())
}

/// `std::str::from_utf8(..).is_ok()`: whether the bytes are UTF-8.
#[verifier::external_body]
fn is_utf8(bytes: &[u8]) -> (r: bool)
    ensures
        r == valid_utf8(bytes@),
{
    std::str::from_utf8(bytes).is_ok()
}

/// The body of a successful response from `url`: gzip-decoded when the
/// response says so, and refused when text was asked for and it is not UTF-8.
pub open spec fn decode_response_spec(
    body: Seq<u8>,
    gzip: bool,
    utf8: bool,
    url: Seq<char>,
    status: u16,
) -> Result<Seq<u8>, ScrapeErrorV> {
    let decoded = if gzip {
        gzip_decompress(body)
    } else {
        Ok(body)
    };
    match decoded {
        Err(m) => Err(ScrapeErrorV::Gzip(m)),
        Ok(b) => if utf8 && !valid_utf8(b) {
            Err(ScrapeErrorV::BadResponse(url, status))
        } else {
            Ok(b)
        },
    }
}

/// The body of a successful response from `url`: gzip-decoded when the
/// response says so, and refused when text was asked for and it is not UTF-8.
pub fn decode_response(body: Vec<u8>, gzip: bool, utf8: bool, url: &str, status: u16) -> (r: Result<
    Vec<u8>,
    ScrapeError,
>)
    ensures
        match decode_response_spec(body@, gzip, utf8, url@, status) {
            Ok(b) => r is Ok && r->Ok_0@ == b,
            Err(e) => r is Err && r->Err_0@ == e,
        },
{
    let decoded = if gzip {
        match gunzip(body.as_slice()) {
            Ok(v) => v,
            Err(m) => return Err(ScrapeError::Gzip(m)),
        }
    } else {
        body
    };
    if utf8 && !is_utf8(decoded.as_slice()) {
        return Err(ScrapeError::BadResponse(url.to_string(), status));
    }
    Ok(decoded)
}

/// A failed request for a torrent's page: a 404 means the torrent was deleted.
pub fn page_error(e: ScrapeError, id: usize) -> (r: ScrapeError)
    ensures
        (e matches ScrapeError::Response(_, s) && s == 404) ==> r@ == ScrapeErrorV::TorrentDeleted(id),
        !(e matches ScrapeError::Response(_, s) && s == 404) ==> r == e,
{
    match e {
        ScrapeError::Response(_, 404) => ScrapeError::TorrentDeleted(id),
        other => other,
    }
}

/// A failed download of a torrent's file: a 404 means it has none yet.
pub fn file_error(e: ScrapeError, id: usize) -> (r: ScrapeError)
    ensures
        (e matches ScrapeError::Response(_, s) && s == 404) ==> r@ == ScrapeErrorV::TorrentMissing(id),
        !(e matches ScrapeError::Response(_, s) && s == 404) ==> r == e,
{
    match e {
        ScrapeError::Response(_, 404) => ScrapeError::TorrentMissing(id),
        other => other,
    }
}

/// What `lava_torrent` reads from the bytes of a `.torrent` file: the info
/// hash in hex and the total length, or the message of its error.
pub uninterp spec fn torrent_file_parse(bytes: Seq<u8>) -> Result<(Seq<char>, i64), Seq<char>>;

/// `lava_torrent::torrent::v1::Torrent::read_from_bytes`, then its
/// `info_hash()` and `length`; an error is given by its message.
#[verifier::external_body]
fn read_torrent_bytes(bytes: &[u8]) -> (r: Result<(String, i64), String>)
    ensures
        match torrent_file_parse(bytes@) {
            Ok((h, len)) => r is Ok && r->Ok_0.0@ == h && r->Ok_0.1 == len,
            Err(m) => r is Err && r->Err_0@ == m,
        },
{
    lava_torrent::torrent::v1::Torrent::read_from_bytes(bytes).map(|t| (t.info_hash(), t.length)).map_err(
        |e| e.to_string(),
    )
}

/// The info hash and size of the `.torrent` file read from `path`; an error
/// names the path.
pub fn torrent_file_info(path: &str, bytes: &[u8]) -> (r: Result<(String, usize), ScrapeError>)
    ensures
        match torrent_file_parse(bytes@) {
            Ok((h, len)) => r is Ok && r->Ok_0.0@ == h && r->Ok_0.1 == len as usize,
            Err(m) => r is Err && r->Err_0@ == ScrapeErrorV::LavaTorrent(path@, m),
        },
{
    match read_torrent_bytes(bytes) {
        Ok((h, len)) => Ok((h, len as usize)),
        Err(m) => Err(ScrapeError::LavaTorrent(path.to_string(), m)),
    }
}

} // verus!
