//! The local resource protocol: from a request's URI and `Range` header and
//! the file's bytes to a full (200), partial (206) or not-found (404)
//! response.
use vstd::prelude::*;
use vstd::utf8::{decode_utf8, encode_utf8, valid_utf8};

use crate::decimal::{decimal_text, usize_text};
use crate::range::{parse_range, spec_parse_range};
use crate::text::{same_text, strip_text_prefix};

verus! {

/// The value of an ASCII hex digit byte, either case.
pub open spec fn hex_digit_value(b: u8) -> Option<int> {
    if 0x30 <= b <= 0x39 {
        Some(b - 0x30)
    } else if 0x41 <= b <= 0x46 {
        Some(b - 0x41 + 10)
    } else if 0x61 <= b <= 0x66 {
        Some(b - 0x61 + 10)
    } else {
        None
    }
}

/// Bytes with each `%` that two hex digits follow replaced by the byte they
/// spell; every other byte, a lone `%` too, is kept as it is.
pub open spec fn percent_decode_bytes(b: Seq<u8>) -> Seq<u8>
    decreases b.len(),
{
    if b.len() == 0 {
        Seq::empty()
    } else if b[0] == 0x25 && b.len() >= 3 && hex_digit_value(b[1]) is Some && hex_digit_value(
        b[2],
    ) is Some {
        seq![(hex_digit_value(b[1])->0 * 16 + hex_digit_value(b[2])->0) as u8]
            + percent_decode_bytes(b.skip(3))
    } else {
        seq![b[0]] + percent_decode_bytes(b.skip(1))
    }
}

/// The text that percent-decoding the UTF-8 bytes of `s` gives, where those
/// bytes are UTF-8 again.
pub open spec fn percent_decoded(s: Seq<char>) -> Option<Seq<char>> {
    let b = percent_decode_bytes(encode_utf8(s));
    if valid_utf8(b) {
        Some(decode_utf8(b))
    } else {
        None
    }
}

/// Relies on `urlencoding::decode`: `%` and two hex digits become that byte,
/// `+` and all else stay, and the bytes must then be UTF-8 (else its
/// `FromUtf8Error`).
#[verifier::external_body]
fn percent_decode(s: &str) -> (r: Option<String>)
    ensures
        match r {
            Some(d) => percent_decoded(s@) == Some(d@),
            None => percent_decoded(s@) is None,
        },
{
    match urlencoding::decode(s) {
        Ok(d) => Some(d.into_owned()),
        Err(_) => None,
    }
}

/// The file path a raw resource path names: its percent-decoding, or the raw
/// text itself where that does not decode.
pub open spec fn resolved_path(raw: Seq<char>) -> Seq<char> {
    match percent_decoded(raw) {
        Some(d) => d,
        None => raw,
    }
}

/// Decodes the path of a resource request. A path that does not decode is
/// used as it stands rather than refused.
pub fn decode_resource_path(raw: &str) -> (r: String)
    ensures
        r@ == resolved_path(raw@),
{
    match percent_decode(raw) {
        Some(d) => d,
        None => String::from_str(raw),
    }
}

/// The start of every URI of the resource scheme.
pub open spec fn resource_uri_prefix() -> Seq<char> {
    "theme://localhost/"@
}

/// The raw (still percent-encoded) path of a resource URI, or `None` where
/// the URI is not one of the resource scheme.
pub fn resource_uri_path(uri: &str) -> (r: Option<&str>)
    ensures
        match r {
            Some(p) => uri@.len() >= resource_uri_prefix().len() && uri@.take(
                resource_uri_prefix().len() as int,
            ) == resource_uri_prefix() && p@ == uri@.skip(resource_uri_prefix().len() as int),
            None => !(uri@.len() >= resource_uri_prefix().len() && uri@.take(
                resource_uri_prefix().len() as int,
            ) == resource_uri_prefix()),
        },
{
    strip_text_prefix(uri, "theme://localhost/")
}

/// The MIME type served for a file with extension `ext`.
pub open spec fn mime_for_extension(ext: Option<Seq<char>>) -> Seq<char> {
    match ext {
        Some(e) => if e == "js"@ {
            "application/javascript"@
        } else if e == "css"@ {
            "text/css"@
        } else if e == "html"@ {
            "text/html"@
        } else if e == "png"@ {
            "image/png"@
        } else if e == "jpg"@ || e == "jpeg"@ {
            "image/jpeg"@
        } else if e == "gif"@ {
            "image/gif"@
        } else if e == "svg"@ {
            "image/svg+xml"@
        } else if e == "mp4"@ {
            "video/mp4"@
        } else if e == "webm"@ {
            "video/webm"@
        } else if e == "mp3"@ {
            "audio/mpeg"@
        } else if e == "wav"@ {
            "audio/wav"@
        } else if e == "json"@ {
            "application/json"@
        } else if e == "woff"@ {
            "font/woff"@
        } else if e == "woff2"@ {
            "font/woff2"@
        } else if e == "ttf"@ {
            "font/ttf"@
        } else {
            "application/octet-stream"@
        },
        None => "application/octet-stream"@,
    }
}

/// Looks an extension up in the MIME table. The match is exact: case counts,
/// so `MP4` is not `mp4`.
pub fn content_type_for_extension(ext: Option<&str>) -> (r: &'static str)
    ensures
        r@ == mime_for_extension(
            match ext {
                Some(e) => Some(e@),
                None => None,
            },
        ),
{
    match ext {
        Some(e) => if same_text(e, "js") {
            "application/javascript"
        } else if same_text(e, "css") {
            "text/css"
        } else if same_text(e, "html") {
            "text/html"
        } else if same_text(e, "png") {
            "image/png"
        } else if same_text(e, "jpg") || same_text(e, "jpeg") {
            "image/jpeg"
        } else if same_text(e, "gif") {
            "image/gif"
        } else if same_text(e, "svg") {
            "image/svg+xml"
        } else if same_text(e, "mp4") {
            "video/mp4"
        } else if same_text(e, "webm") {
            "video/webm"
        } else if same_text(e, "mp3") {
            "audio/mpeg"
        } else if same_text(e, "wav") {
            "audio/wav"
        } else if same_text(e, "json") {
            "application/json"
        } else if same_text(e, "woff") {
            "font/woff"
        } else if same_text(e, "woff2") {
            "font/woff2"
        } else if same_text(e, "ttf") {
            "font/ttf"
        } else {
            "application/octet-stream"
        },
        None => "application/octet-stream",
    }
}

/// A path that is one file name, with nothing that any platform reads as a
/// directory separator or a drive prefix.
pub open spec fn is_bare_file_name(p: Seq<char>) -> bool {
    !p.contains('/') && !p.contains('\\') && !p.contains(':')
}

/// `p[i]` is the last `.` of `p`.
pub open spec fn last_dot_at(p: Seq<char>, i: int) -> bool {
    0 <= i < p.len() && p[i] == '.' && forall|j: int| i < j < p.len() ==> p[j] != '.'
}

/// The extension of a bare file name: what follows its last `.`, unless the
/// name has no `.`, is `..`, or has its only `.` at its start.
pub open spec fn bare_extension(p: Seq<char>) -> Option<Seq<char>> {
    if p == seq!['.', '.'] || !p.contains('.') {
        None
    } else {
        let i = choose|i: int| last_dot_at(p, i);
        if i == 0 {
            None
        } else {
            Some(p.skip(i + 1))
        }
    }
}

/// What follows the last `/` of `p` (all of `p` where it has none).
pub open spec fn after_last_slash(p: Seq<char>) -> Seq<char>
    decreases p.len(),
{
    if p.len() == 0 {
        p
    } else if p.last() == '/' {
        Seq::empty()
    } else {
        after_last_slash(p.drop_last()).push(p.last())
    }
}

/// A path whose file name, on every platform, is what follows its last `/`:
/// no `\`, no leading `//`, and a final part that is neither empty, `.` nor
/// `..` and holds no drive prefix.
pub open spec fn has_plain_file_name(p: Seq<char>) -> bool {
    &&& !p.contains('\\')
    &&& !(p.len() >= 2 && p[0] == '/' && p[1] == '/')
    &&& after_last_slash(p).len() > 0
    &&& after_last_slash(p) != seq!['.']
    &&& after_last_slash(p) != seq!['.', '.']
    &&& !after_last_slash(p).contains(':')
}

/// Relies on `Path::extension`, read back with `OsStr::to_str`: what follows
/// the last `.` of the file name, and nothing where the path has no `.`. For
/// a bare file name the file name is the whole path; for a path with a plain
/// file name it is what follows the last `/`.
#[verifier::external_body]
fn path_extension(path: &str) -> (r: Option<String>)
    ensures
        r matches Some(e) ==> !e@.contains('.') && path@.contains('.'),
        !path@.contains('.') ==> r is None,
        is_bare_file_name(path@) ==> match r {
            Some(e) => bare_extension(path@) == Some(e@),
            None => bare_extension(path@) is None,
        },
        has_plain_file_name(path@) ==> match r {
            Some(e) => bare_extension(after_last_slash(path@)) == Some(e@),
            None => bare_extension(after_last_slash(path@)) is None,
        },
{
    match std::path::Path::new(path).extension() {
        Some(e) => e.to_str().map(String::from),
        None => None,
    }
}

pub open spec fn is_table_mime(m: Seq<char>) -> bool {
    exists|ext: Option<Seq<char>>| m == mime_for_extension(ext)
}

/// The MIME type for a file path, from its extension.
pub fn content_type(path: &str) -> (r: &'static str)
    ensures
        is_table_mime(r@),
        !path@.contains('.') ==> r@ == mime_for_extension(None),
        is_bare_file_name(path@) ==> r@ == mime_for_extension(bare_extension(path@)),
        has_plain_file_name(path@) ==> r@ == mime_for_extension(
            bare_extension(after_last_slash(path@)),
        ),
{
    let ext = path_extension(path);
    let r = match &ext {
        Some(e) => content_type_for_extension(Some(e.as_str())),
        None => content_type_for_extension(None),
    };
    proof {
        let x = match ext {
            Some(e) => Some(e@),
            None => None,
        };
        assert(r@ == mime_for_extension(x));
    }
    r
}

/// A response of the resource protocol.
pub struct ResourceResponse {
    pub status: u16,
    pub headers: Vec<(String, String)>,
    pub body: Vec<u8>,
}

pub open spec fn headers_view(h: Seq<(String, String)>) -> Seq<(Seq<char>, Seq<char>)> {
    h.map_values(|p: (String, String)| (p.0@, p.1@))
}

/// The `Content-Range` value for bytes `start` through `end` of `total`.
pub open spec fn content_range_text(start: nat, end: nat, total: nat) -> Seq<char> {
    "bytes "@ + decimal_text(start) + "-"@ + decimal_text(end) + "/"@ + decimal_text(total)
}

/// The headers that every found resource gets.
pub open spec fn base_headers(content_type: Seq<char>) -> Seq<(Seq<char>, Seq<char>)> {
    seq![("Content-Type"@, content_type), ("Accept-Ranges"@, "bytes"@)]
}

/// The range that a request's header selects in `total` bytes, if any.
pub open spec fn requested_range(range_header: Option<Seq<char>>, total: int) -> Option<(int, int)> {
    match range_header {
        Some(h) => spec_parse_range(h, total),
        None => None,
    }
}

/// What the server answers: 404 with nothing where the file could not be
/// read; 206 with the slice where the header names a satisfiable range;
/// otherwise 200 with the whole file.
pub open spec fn response_matches(
    r: ResourceResponse,
    content: Option<Seq<u8>>,
    content_type: Seq<char>,
    range_header: Option<Seq<char>>,
) -> bool {
    match content {
        None => r.status == 404 && r.body@.len() == 0 && r.headers@.len() == 0,
        Some(c) => match requested_range(range_header, c.len() as int) {
            Some((start, end)) => {
                &&& r.status == 206
                &&& r.body@ == c.subrange(start, end + 1)
                &&& headers_view(r.headers@) == base_headers(content_type) + seq![
                    ("Content-Range"@, content_range_text(start as nat, end as nat, c.len())),
                    ("Content-Length"@, decimal_text((end - start + 1) as nat)),
                ]
            },
            None => {
                &&& r.status == 200
                &&& r.body@ == c
                &&& headers_view(r.headers@) == base_headers(content_type)
            },
        },
    }
}

/// A file that cannot be read is answered with 404 and nothing else, whatever
/// the request's `Range` header holds.
pub proof fn lemma_unreadable_is_not_found(
    r: ResourceResponse,
    content_type: Seq<char>,
    range_header: Option<Seq<char>>,
)
    requires
        response_matches(r, None, content_type, range_header),
    ensures
        r.status == 404,
        r.body@.len() == 0,
        r.headers@.len() == 0,
{
}

/// Builds the response to a resource request from what reading the file
/// gave (`None` where it failed), the file's MIME type and the request's
/// `Range` header. A malformed or unsatisfiable range is ignored and the
/// whole file is served.
pub fn build_response(content: Option<Vec<u8>>, content_type: &str, range_header: Option<&str>) -> (r:
    ResourceResponse)
    ensures
        response_matches(
            r,
            match content {
                Some(c) => Some(c@),
                None => None,
            },
            content_type@,
            match range_header {
                Some(h) => Some(h@),
                None => None,
            },
        ),
{
    let content = match content {
        Some(c) => c,
        None => {
            let r = ResourceResponse { status: 404, headers: Vec::new(), body: Vec::new() };
            assert(headers_view(r.headers@) =~= Seq::empty());
            return r;
        },
    };
    let ghost c = content@;
    let total = content.len();
    let mut headers: Vec<(String, String)> = Vec::new();
    headers.push((String::from_str("Content-Type"), String::from_str(content_type)));
    headers.push((String::from_str("Accept-Ranges"), String::from_str("bytes")));
    assert(headers_view(headers@) =~= base_headers(content_type@));
    let range = match range_header {
        Some(h) => parse_range(h, total),
        None => None,
    };
    match range {
        Some((start, end)) => {
            let mut value = String::from_str("bytes ");
            value.append(usize_text(start).as_str());
            value.append("-");
            value.append(usize_text(end).as_str());
            value.append("/");
            value.append(usize_text(total).as_str());
            let length = usize_text(end - start + 1);
            let ghost before = headers_view(headers@);
            headers.push((String::from_str("Content-Range"), value));
            headers.push((String::from_str("Content-Length"), length));
            assert(headers_view(headers@) =~= before + seq![
                ("Content-Range"@, content_range_text(start as nat, end as nat, total as nat)),
                ("Content-Length"@, decimal_text((end - start + 1) as nat)),
            ]);
            let mut body: Vec<u8> = Vec::new();
            let mut k: usize = start;
            while k <= end
                invariant
                    start <= k <= end + 1,
                    end < total,
                    total == content@.len(),
                    body@ == content@.subrange(start as int, k as int),
                decreases end + 1 - k,
            {
                body.push(content[k]);
                assert(content@.subrange(start as int, k + 1) =~= content@.subrange(
                    start as int,
                    k as int,
                ).push(content@[k as int]));
                k = k + 1;
            }
            ResourceResponse { status: 206, headers, body }
        },
        None => ResourceResponse { status: 200, headers, body: content },
    }
}

} // verus!
