//! The response composer: renders each decided outcome into the exact
//! status line, header block and body bytes.  Every head carries a
//! `Server: apex` header and a `Content-Length` computed from the byte
//! length of the body actually rendered, never from a client-supplied
//! value.  Responses sent before a request version is known (`400`, `500`)
//! fix the status-line token to `HTTP/1.0`.

use vstd::prelude::*;

use crate::request::HttpVersion;
use crate::text::{
    ascii_seq, dec_rep, dec_value, lemma_dec_rep_faithful, lit_bytes, push_ascii, push_bytes,
    push_dec,
};

verus! {

/// A rendered response: the status line and header block (`head`), then
/// the body.  The wire form is the head bytes followed by the body bytes.
pub struct HttpResponse {
    pub head: Vec<u8>,
    pub body: Vec<u8>,
}

/// The status-line token echoing the request's protocol version.
pub open spec fn version_token(v: HttpVersion) -> Seq<u8> {
    match v {
        HttpVersion::V10 => ascii_seq("HTTP/1.0 "@),
        HttpVersion::V11 => ascii_seq("HTTP/1.1 "@),
    }
}

/// The `Content-Length` header line for a body of `n` bytes.
pub open spec fn content_length_line(n: nat) -> Seq<u8> {
    ascii_seq("Content-Length: "@) + dec_rep(n) + ascii_seq("\r\n"@)
}

/// The status line and `Server` header that open every head.
pub open spec fn head_start(token: Seq<u8>, status: Seq<u8>) -> Seq<u8> {
    token + status + ascii_seq("\r\nServer: apex\r\n"@)
}

/// The optional `Content-Type` line of generated text pages.
pub open spec fn content_type_line(text_plain: bool) -> Seq<u8> {
    if text_plain {
        ascii_seq("Content-Type: text/plain\r\n"@)
    } else {
        Seq::empty()
    }
}

/// The head after the `Content-Length` line: the optional `Location`
/// header of redirects, and the blank line that closes the head.
pub open spec fn head_end(location: Option<Seq<u8>>) -> Seq<u8> {
    (match location {
        Some(l) => ascii_seq("Location: "@) + l + ascii_seq("\r\n"@),
        None => Seq::empty(),
    }) + ascii_seq("\r\n"@)
}

/// The whole head of a response whose body is `body_len` bytes long.
/// Two fixed header orders exist: the error pages (`404`, `500`) put
/// `Content-Length` before the optional `Content-Type` (`length_first`);
/// every other response puts `Content-Type` first.
pub open spec fn spec_head(
    token: Seq<u8>,
    status: Seq<u8>,
    text_plain: bool,
    length_first: bool,
    body_len: nat,
    location: Option<Seq<u8>>,
) -> Seq<u8> {
    head_start(token, status) + (if length_first {
        content_length_line(body_len) + content_type_line(text_plain)
    } else {
        content_type_line(text_plain) + content_length_line(body_len)
    }) + head_end(location)
}

/// `Content-Length` is exact: every head embeds, as one contiguous run of
/// bytes, a `Content-Length` line whose digits denote precisely the byte
/// length of the body the head precedes.  The composers below instantiate
/// `body_len` with the length of the body they return.
pub proof fn lemma_content_length_exact(
    token: Seq<u8>,
    status: Seq<u8>,
    text_plain: bool,
    length_first: bool,
    body_len: nat,
    location: Option<Seq<u8>>,
)
    ensures
        dec_value(dec_rep(body_len)) == body_len,
        exists|i: int, j: int|
            #![trigger spec_head(token, status, text_plain, length_first, body_len, location)
                .subrange(i, j)]
            {
                &&& 0 <= i <= j <= spec_head(
                    token,
                    status,
                    text_plain,
                    length_first,
                    body_len,
                    location,
                ).len()
                &&& j - i == content_length_line(body_len).len()
                &&& spec_head(token, status, text_plain, length_first, body_len, location)
                    .subrange(i, j) == content_length_line(body_len)
            },
{
    lemma_dec_rep_faithful(body_len);
    let head = spec_head(token, status, text_plain, length_first, body_len, location);
    let line = content_length_line(body_len);
    let pre = if length_first {
        head_start(token, status)
    } else {
        head_start(token, status) + content_type_line(text_plain)
    };
    let i = pre.len() as int;
    let j = i + line.len() as int;
    assert(head.subrange(i, j) =~= line);
}

/// Renders the head of a response.
fn build_head(
    version: HttpVersion,
    status: &str,
    text_plain: bool,
    length_first: bool,
    body_len: usize,
    location: Option<&Vec<u8>>,
) -> (r: Vec<u8>)
    requires
        status.is_ascii(),
    ensures
        r@ == spec_head(
            version_token(version),
            ascii_seq(status@),
            text_plain,
            length_first,
            body_len as nat,
            match location {
                Some(l) => Some(l@),
                None => None,
            },
        ),
{
    proof {
        reveal_strlit("HTTP/1.0 ");
        reveal_strlit("HTTP/1.1 ");
        reveal_strlit("\r\nServer: apex\r\n");
        reveal_strlit("Content-Type: text/plain\r\n");
        reveal_strlit("Content-Length: ");
        reveal_strlit("Location: ");
        reveal_strlit("\r\n");
    }
    let mut h: Vec<u8> = Vec::new();
    match version {
        HttpVersion::V10 => push_ascii(&mut h, "HTTP/1.0 "),
        HttpVersion::V11 => push_ascii(&mut h, "HTTP/1.1 "),
    }
    push_ascii(&mut h, status);
    push_ascii(&mut h, "\r\nServer: apex\r\n");
    if !length_first && text_plain {
        push_ascii(&mut h, "Content-Type: text/plain\r\n");
    }
    push_ascii(&mut h, "Content-Length: ");
    push_dec(&mut h, body_len);
    push_ascii(&mut h, "\r\n");
    if length_first && text_plain {
        push_ascii(&mut h, "Content-Type: text/plain\r\n");
    }
    match location {
        Some(l) => {
            push_ascii(&mut h, "Location: ");
            push_bytes(&mut h, l);
            push_ascii(&mut h, "\r\n");
        },
        None => {},
    }
    push_ascii(&mut h, "\r\n");
    proof {
        assert(h@ =~= spec_head(
            version_token(version),
            ascii_seq(status@),
            text_plain,
            length_first,
            body_len as nat,
            match location {
                Some(l) => Some(l@),
                None => None,
            },
        ));
    }
    h
}

/// Renders `200 OK` with the resolved file contents as the body.
pub fn compose_ok(version: HttpVersion, content: Vec<u8>) -> (r: HttpResponse)
    ensures
        r.body@ == content@,
        r.head@ == spec_head(
            version_token(version),
            ascii_seq("200 OK"@),
            false,
            false,
            content@.len(),
            None,
        ),
{
    proof {
        reveal_strlit("200 OK");
    }
    let body_len = content.len();
    let head = build_head(version, "200 OK", false, false, body_len, None);
    HttpResponse { head, body: content }
}

/// The generated text body of a `301` answer: the status text, then the
/// canonical URL spelled absolute with the hostname.
pub open spec fn redirect_body(hostname: Seq<u8>, location: Seq<u8>) -> Seq<u8> {
    ascii_seq("301 Moved Permanently\r\nhttp://"@) + hostname + location
}

/// Renders `301 Moved Permanently` toward `location`, a URL path on the
/// same virtual host.
pub fn compose_redirect(version: HttpVersion, hostname: &Vec<u8>, location: &Vec<u8>) -> (r:
    HttpResponse)
    ensures
        r.body@ == redirect_body(hostname@, location@),
        r.head@ == spec_head(
            version_token(version),
            ascii_seq("301 Moved Permanently"@),
            true,
            false,
            r.body@.len(),
            Some(location@),
        ),
{
    proof {
        reveal_strlit("301 Moved Permanently\r\nhttp://");
        reveal_strlit("301 Moved Permanently");
    }
    let mut body = lit_bytes("301 Moved Permanently\r\nhttp://");
    push_bytes(&mut body, hostname);
    push_bytes(&mut body, location);
    let body_len = body.len();
    let head = build_head(version, "301 Moved Permanently", true, false, body_len, Some(location));
    proof {
        assert(body@ =~= redirect_body(hostname@, location@));
    }
    HttpResponse { head, body }
}

/// Renders the `400 Bad Request` answer sent for every protocol error,
/// before any version is agreed.
pub fn compose_bad_request() -> (r: HttpResponse)
    ensures
        r.body@ == ascii_seq("400 Bad Request"@),
        r.head@ == spec_head(
            version_token(HttpVersion::V10),
            ascii_seq("400 Bad Request"@),
            true,
            false,
            r.body@.len(),
            None,
        ),
{
    proof {
        reveal_strlit("400 Bad Request");
    }
    let body = lit_bytes("400 Bad Request");
    let body_len = body.len();
    let head = build_head(HttpVersion::V10, "400 Bad Request", true, false, body_len, None);
    HttpResponse { head, body }
}

/// Renders `404 Not Found`: the configured page where the driver could
/// read one, else the fixed plain-text body.  The error pages put
/// `Content-Length` directly after `Server`.
pub fn compose_not_found(version: HttpVersion, page: Option<Vec<u8>>) -> (r: HttpResponse)
    ensures
        match page {
            Some(c) => r.body@ == c@ && r.head@ == spec_head(
                version_token(version),
                ascii_seq("404 Not Found"@),
                false,
                true,
                c@.len(),
                None,
            ),
            None => r.body@ == ascii_seq("404 Not Found"@) && r.head@ == spec_head(
                version_token(version),
                ascii_seq("404 Not Found"@),
                true,
                true,
                r.body@.len(),
                None,
            ),
        },
{
    proof {
        reveal_strlit("404 Not Found");
    }
    match page {
        Some(c) => {
            let body_len = c.len();
            let head = build_head(version, "404 Not Found", false, true, body_len, None);
            HttpResponse { head, body: c }
        },
        None => {
            let body = lit_bytes("404 Not Found");
            let body_len = body.len();
            let head = build_head(version, "404 Not Found", true, true, body_len, None);
            HttpResponse { head, body }
        },
    }
}

/// Renders `500 Internal Server Error`: the configured page where the
/// driver could read one, else the fixed plain-text body.  Sent from the
/// connection handler where no version may be known, so the token is
/// fixed to `HTTP/1.0`; like the not-found page, it puts `Content-Length`
/// directly after `Server`.
pub fn compose_server_error(page: Option<Vec<u8>>) -> (r: HttpResponse)
    ensures
        match page {
            Some(c) => r.body@ == c@ && r.head@ == spec_head(
                version_token(HttpVersion::V10),
                ascii_seq("500 Internal Server Error"@),
                false,
                true,
                c@.len(),
                None,
            ),
            None => r.body@ == ascii_seq("500 Internal Server Error"@) && r.head@ == spec_head(
                version_token(HttpVersion::V10),
                ascii_seq("500 Internal Server Error"@),
                true,
                true,
                r.body@.len(),
                None,
            ),
        },
{
    proof {
        reveal_strlit("500 Internal Server Error");
    }
    match page {
        Some(c) => {
            let body_len = c.len();
            let head = build_head(
                HttpVersion::V10,
                "500 Internal Server Error",
                false,
                true,
                body_len,
                None,
            );
            HttpResponse { head, body: c }
        },
        None => {
            let body = lit_bytes("500 Internal Server Error");
            let body_len = body.len();
            let head = build_head(
                HttpVersion::V10,
                "500 Internal Server Error",
                true,
                true,
                body_len,
                None,
            );
            HttpResponse { head, body }
        },
    }
}

} // verus!
