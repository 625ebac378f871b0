//! The front door of the engine.  Once the driver has read the request
//! line and the header lines (up to a blank line or the end of the
//! stream), `begin_request` parses them and says what to do next: answer
//! `400 Bad Request` outright, run the shared not-found handling when no
//! `Host` header was sent, or start resolving under the named virtual
//! host.  `respond_for_decision` then renders the resolver's decision.

use vstd::prelude::*;

use crate::client::{client_identity, real_ip_key, spec_peer_is_private, ClientIdentity, Peer};
use crate::headers::{parse_headers, spec_header_section};
use crate::request::{line_version, parse_request_line, spec_parse_request_line, HttpVersion};
use crate::resolve::{resolve_start, spec_resolve_start, Decision, ResolveState, SpecDecision};
use crate::response::{
    compose_bad_request, compose_ok, compose_redirect, redirect_body, spec_head, version_token,
    HttpResponse,
};
use crate::text::{ascii_seq, clone_bytes, copy_range, lit_bytes};

verus! {

/// One structured access-log record: who asked, and for what.  What
/// becomes of the record is the driver's business.
pub struct AccessRecord {
    pub client: ClientIdentity,
    pub hostname: Vec<u8>,
    /// The request line after the method: the URL path and the version
    /// suffix, verbatim.
    pub target: Vec<u8>,
}

/// What the engine asks of the driver once the head of a request is read.
pub enum RequestStep {
    /// Write this response and close; the request carried a protocol
    /// error.
    Respond(HttpResponse),
    /// No `Host` header was sent: run the shared not-found handling.
    NotFoundPage { version: HttpVersion },
    /// Resolve under the named virtual host, starting from `state`, and
    /// log `log`.
    Resolve { version: HttpVersion, hostname: Vec<u8>, log: AccessRecord, state: ResolveState },
}

/// What the driver must do with a resolution's decision.
pub enum DecisionStep {
    /// Write this response.
    Respond(HttpResponse),
    /// Run the shared not-found handling: read the configured page, then
    /// render the answer with `compose_not_found`.
    NotFoundPage { version: HttpVersion },
    /// Read the configured error page, then render the answer with
    /// `compose_server_error`.
    ServerErrorPage,
}

/// The lower-cased name of the header that selects the virtual host.
pub open spec fn host_key() -> Seq<u8> {
    ascii_seq("host"@)
}

/// The step answers with the fixed `400 Bad Request` response.
pub open spec fn step_is_bad_request(r: RequestStep) -> bool {
    match r {
        RequestStep::Respond(resp) => resp.body@ == ascii_seq("400 Bad Request"@) && resp.head@
            == spec_head(
            version_token(HttpVersion::V10),
            ascii_seq("400 Bad Request"@),
            true,
            false,
            resp.body@.len(),
            None,
        ),
        _ => false,
    }
}

/// Parses the head of a request and decides the next step.
///
/// Any request line not of the form `GET <path> HTTP/1.0` or
/// `GET <path> HTTP/1.1`, any header line without a colon, and a stream
/// that ends before the blank line are all answered `400 Bad Request`.
/// A well-formed head without a `Host` header degrades to the shared
/// not-found handling.  Otherwise resolution starts under the named host,
/// and the access-log record is built, honoring the trusted-proxy rule.
pub fn begin_request(lines: &Vec<Vec<u8>>, peer: &Peer) -> (r: RequestStep)
    requires
        lines@.len() >= 1,
    ensures
        ({
            let line = lines@[0]@;
            match spec_parse_request_line(line) {
                Err(_) => step_is_bad_request(r),
                Ok((v, p)) => match spec_header_section(lines@) {
                    Err(_) => step_is_bad_request(r),
                    Ok(m) => if !m.contains_key(host_key()) {
                        r == (RequestStep::NotFoundPage { version: v })
                    } else {
                        match r {
                            RequestStep::Resolve { version, hostname, log, state } => {
                                &&& version == v
                                &&& hostname@ == m[host_key()]
                                &&& state@ == spec_resolve_start(m[host_key()], p)
                                &&& log.hostname@ == m[host_key()]
                                &&& log.target@ == line.skip(4)
                                &&& match log.client {
                                    ClientIdentity::Proxied { real_ip, port } => {
                                        &&& spec_peer_is_private(*peer)
                                        &&& m.contains_key(real_ip_key())
                                        &&& real_ip@ == m[real_ip_key()]
                                        &&& port == peer.port
                                    },
                                    ClientIdentity::Direct => !(spec_peer_is_private(*peer)
                                        && m.contains_key(real_ip_key())),
                                }
                            },
                            _ => false,
                        }
                    },
                },
            }
        }),
        // Any request line that does not name a supported version after
        // the method is answered 400, whatever else it holds.
        line_version(lines@[0]@) is None ==> step_is_bad_request(r),
{
    let rl = match parse_request_line(&lines[0]) {
        Err(_) => { return RequestStep::Respond(compose_bad_request()); },
        Ok(rl) => rl,
    };
    let headers = match parse_headers(lines) {
        Err(_) => { return RequestStep::Respond(compose_bad_request()); },
        Ok(h) => h,
    };
    proof {
        reveal_strlit("host");
    }
    let host_key_bytes = lit_bytes("host");
    let hostname = match headers.get(&host_key_bytes) {
        None => { return RequestStep::NotFoundPage { version: rl.version }; },
        Some(h) => clone_bytes(h),
    };
    let line0 = &lines[0];
    assert(line0@.len() >= 13);
    let target = copy_range(line0, 4, line0.len());
    proof {
        assert(target@ =~= lines@[0]@.skip(4));
    }
    let client = client_identity(peer, &headers);
    let state = resolve_start(&hostname, &rl.path);
    let log = AccessRecord { client, hostname: clone_bytes(&hostname), target };
    RequestStep::Resolve { version: rl.version, hostname, log, state }
}

/// Renders a resolution's decision: a served file or a redirect becomes a
/// finished response; the not-found and server-error outcomes hand back to
/// the driver for the configured pages.
pub fn respond_for_decision(version: HttpVersion, hostname: &Vec<u8>, decision: Decision) -> (r:
    DecisionStep)
    ensures
        match decision@ {
            SpecDecision::Serve(c) => match r {
                DecisionStep::Respond(resp) => resp.body@ == c && resp.head@ == spec_head(
                    version_token(version),
                    ascii_seq("200 OK"@),
                    false,
                    false,
                    c.len(),
                    None,
                ),
                _ => false,
            },
            SpecDecision::Redirect(loc) => match r {
                DecisionStep::Respond(resp) => resp.body@ == redirect_body(hostname@, loc)
                    && resp.head@ == spec_head(
                    version_token(version),
                    ascii_seq("301 Moved Permanently"@),
                    true,
                    false,
                    resp.body@.len(),
                    Some(loc),
                ),
                _ => false,
            },
            SpecDecision::NotFound => r == (DecisionStep::NotFoundPage { version }),
            SpecDecision::ServerError => r == DecisionStep::ServerErrorPage,
        },
{
    match decision {
        Decision::Serve(content) => DecisionStep::Respond(compose_ok(version, content)),
        Decision::Redirect(location) => DecisionStep::Respond(
            compose_redirect(version, hostname, &location),
        ),
        Decision::NotFound => DecisionStep::NotFoundPage { version },
        Decision::ServerError => DecisionStep::ServerErrorPage,
    }
}

} // verus!
