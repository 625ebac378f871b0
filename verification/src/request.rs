//! The request-line parser: the first line of a connection must read
//! `GET <path> HTTP/1.0` or `GET <path> HTTP/1.1`; anything else is a
//! protocol error that the caller answers with `400 Bad Request`.

use vstd::prelude::*;

use crate::text::{ascii_seq, copy_range, has_prefix, has_suffix, is_prefix_of, is_suffix_of};

verus! {

/// The protocol version named at the end of a request line; it selects the
/// token echoed in the response status line.
#[derive(Clone, Copy, Debug, PartialEq, Eq, Structural)]
pub enum HttpVersion {
    V10,
    V11,
}

/// The ways a request can be refused before any filesystem work starts.
/// Every variant is answered with `400 Bad Request`.
#[derive(Clone, Copy, Debug, PartialEq, Eq, Structural)]
pub enum RequestError {
    /// The request line does not begin with `GET `.
    MethodNotSupported,
    /// The request line does not end with ` HTTP/1.0` or ` HTTP/1.1`
    /// after the method.
    UnsupportedVersion,
    /// A header line carries no colon.
    MalformedHeaderLine,
    /// The stream ended before the blank line that closes the headers.
    TruncatedRequest,
}

/// A parsed request line: the version and the URL path, the path taken
/// verbatim from between the method and the version suffix.
#[derive(Debug)]
pub struct RequestLine {
    pub version: HttpVersion,
    pub path: Vec<u8>,
}

/// The method prefix every accepted request line must carry.
pub open spec fn method_prefix() -> Seq<u8> {
    ascii_seq("GET "@)
}

/// The version suffix naming HTTP/1.0.
pub open spec fn suffix_v10() -> Seq<u8> {
    ascii_seq(" HTTP/1.0"@)
}

/// The version suffix naming HTTP/1.1.
pub open spec fn suffix_v11() -> Seq<u8> {
    ascii_seq(" HTTP/1.1"@)
}

/// The version a request line names, where the line is long enough that
/// the suffix stands strictly after the method prefix.
pub open spec fn line_version(s: Seq<u8>) -> Option<HttpVersion> {
    if s.len() >= 13 && is_suffix_of(suffix_v10(), s) {
        Some(HttpVersion::V10)
    } else if s.len() >= 13 && is_suffix_of(suffix_v11(), s) {
        Some(HttpVersion::V11)
    } else {
        None
    }
}

/// The URL path of a request line: the bytes strictly between the method
/// prefix and the version suffix.
pub open spec fn spec_url_path(s: Seq<u8>) -> Seq<u8> {
    s.subrange(4, s.len() - 9)
}

/// What parsing a request line yields: the version and the path, or the
/// error that maps to `400 Bad Request`.
pub open spec fn spec_parse_request_line(s: Seq<u8>) -> Result<
    (HttpVersion, Seq<u8>),
    RequestError,
> {
    if !is_prefix_of(method_prefix(), s) {
        Err(RequestError::MethodNotSupported)
    } else {
        match line_version(s) {
            Some(v) => Ok((v, spec_url_path(s))),
            None => Err(RequestError::UnsupportedVersion),
        }
    }
}

/// Parses the first line of a connection.
pub fn parse_request_line(line: &Vec<u8>) -> (r: Result<RequestLine, RequestError>)
    ensures
        match r {
            Ok(rl) => spec_parse_request_line(line@) == Ok::<_, RequestError>(
                (rl.version, rl.path@),
            ),
            Err(e) => spec_parse_request_line(line@) == Err::<(HttpVersion, Seq<u8>), _>(e),
        },
{
    proof {
        reveal_strlit("GET ");
        reveal_strlit(" HTTP/1.0");
        reveal_strlit(" HTTP/1.1");
    }
    if !has_prefix(line, "GET ") {
        return Err(RequestError::MethodNotSupported);
    }
    let v10 = has_suffix(line, " HTTP/1.0");
    let v11 = has_suffix(line, " HTTP/1.1");
    if line.len() < 13 || (!v10 && !v11) {
        return Err(RequestError::UnsupportedVersion);
    }
    let version = if v10 {
        HttpVersion::V10
    } else {
        HttpVersion::V11
    };
    let path = copy_range(line, 4, line.len() - 9);
    Ok(RequestLine { version, path })
}

} // verus!
