//! The path resolver: given a virtual host name and a URL path, a state
//! machine decides which filesystem entry to serve, whether to redirect
//! toward the canonical form of the URL, or how to fail.  The driver
//! outside performs each probe or read the machine asks for and feeds the
//! result back in; every decision between the probes is made, and proved,
//! here.
//!
//! The candidate entry is `web/<hostname><url_path>`.  A directory is only
//! ever served through its `index.html`, and only under a slash-terminated
//! URL; the slashless URL is redirected.  A file reached with a redundant
//! trailing slash is redirected to the stripped URL; a file reached as a
//! non-final path component (no trailing slash to strip) is absent
//! content and falls through to the shared not-found handling.

use vstd::prelude::*;

use crate::text::{ascii_seq, clone_bytes, copy_range, lit_bytes, push_ascii, push_bytes};

verus! {

/// What a filesystem stat probe reports.
#[derive(Clone, Copy, Debug, PartialEq, Eq, Structural)]
pub enum FsProbe {
    /// The entry exists and is not a directory.
    File,
    /// The entry exists and is a directory.
    Directory,
    /// No entry of that name exists.
    NotFound,
    /// A non-final path component is itself a file.
    NotADirectory,
    /// Any other failure.
    OtherError,
}

/// What reading a file's contents yields.
pub enum ReadOutcome {
    Content(Vec<u8>),
    /// The entry vanished between the probe and the read: a tolerated race.
    NotFound,
    OtherError,
}

/// The decided outcome of a resolution.
pub enum Decision {
    /// Serve these bytes with `200 OK`.
    Serve(Vec<u8>),
    /// Answer `301 Moved Permanently` toward this URL path.
    Redirect(Vec<u8>),
    /// Fall through to the shared `404 Not Found` handling.
    NotFound,
    /// Answer `500 Internal Server Error`.
    ServerError,
}

/// Where a resolution stands: the probe or read the driver must perform
/// next, or the decision it must render.
pub enum ResolveState {
    /// Stat `candidate`.
    StatCandidate { candidate: Vec<u8>, url_path: Vec<u8> },
    /// Stat `probe_path`, the index file of a directory reached without a
    /// trailing slash.
    ProbeIndex { probe_path: Vec<u8>, url_path: Vec<u8> },
    /// Read the contents of `target`.
    ReadTarget { target: Vec<u8> },
    /// Done.
    Decided(Decision),
}

/// The mathematical image of `ReadOutcome`.
pub enum SpecRead {
    Content(Seq<u8>),
    NotFound,
    OtherError,
}

/// The mathematical image of `Decision`.
pub enum SpecDecision {
    Serve(Seq<u8>),
    Redirect(Seq<u8>),
    NotFound,
    ServerError,
}

/// The mathematical image of `ResolveState`.
pub enum SpecResolveState {
    StatCandidate { candidate: Seq<u8>, url_path: Seq<u8> },
    ProbeIndex { probe_path: Seq<u8>, url_path: Seq<u8> },
    ReadTarget { target: Seq<u8> },
    Decided(SpecDecision),
}

impl View for ReadOutcome {
    type V = SpecRead;

    open spec fn view(&self) -> SpecRead {
        match self {
            ReadOutcome::Content(c) => SpecRead::Content(c@),
            ReadOutcome::NotFound => SpecRead::NotFound,
            ReadOutcome::OtherError => SpecRead::OtherError,
        }
    }
}

impl View for Decision {
    type V = SpecDecision;

    open spec fn view(&self) -> SpecDecision {
        match self {
            Decision::Serve(c) => SpecDecision::Serve(c@),
            Decision::Redirect(p) => SpecDecision::Redirect(p@),
            Decision::NotFound => SpecDecision::NotFound,
            Decision::ServerError => SpecDecision::ServerError,
        }
    }
}

impl View for ResolveState {
    type V = SpecResolveState;

    open spec fn view(&self) -> SpecResolveState {
        match self {
            ResolveState::StatCandidate { candidate, url_path } => SpecResolveState::StatCandidate {
                candidate: candidate@,
                url_path: url_path@,
            },
            ResolveState::ProbeIndex { probe_path, url_path } => SpecResolveState::ProbeIndex {
                probe_path: probe_path@,
                url_path: url_path@,
            },
            ResolveState::ReadTarget { target } => SpecResolveState::ReadTarget { target: target@ },
            ResolveState::Decided(d) => SpecResolveState::Decided(d@),
        }
    }
}

/// Whether a URL path ends with `/`.
pub open spec fn ends_with_slash(p: Seq<u8>) -> bool {
    p.len() > 0 && p.last() == 47
}

/// `p` with one trailing slash stripped, if it carries one.
pub open spec fn strip_trailing_slash(p: Seq<u8>) -> Seq<u8> {
    if ends_with_slash(p) {
        p.drop_last()
    } else {
        p
    }
}

/// The filesystem entry a virtual host name and URL path select, under the
/// fixed document root.
pub open spec fn spec_candidate(hostname: Seq<u8>, url_path: Seq<u8>) -> Seq<u8> {
    ascii_seq("web/"@) + hostname + url_path
}

/// The index file probed inside a directory reached without a trailing
/// slash.
pub open spec fn index_probe_path(candidate: Seq<u8>) -> Seq<u8> {
    candidate + ascii_seq("/index.html"@)
}

/// The index file inside a directory reached with a trailing slash.
pub open spec fn index_in_dir(candidate: Seq<u8>) -> Seq<u8> {
    candidate + ascii_seq("index.html"@)
}

/// Where a resolution starts: stat the candidate entry.
pub open spec fn spec_resolve_start(hostname: Seq<u8>, url_path: Seq<u8>) -> SpecResolveState {
    SpecResolveState::StatCandidate {
        candidate: spec_candidate(hostname, url_path),
        url_path: url_path,
    }
}

/// The transition out of the candidate stat.
pub open spec fn spec_on_stat(candidate: Seq<u8>, url_path: Seq<u8>, probe: FsProbe)
    -> SpecResolveState {
    match probe {
        FsProbe::NotFound => SpecResolveState::Decided(SpecDecision::NotFound),
        FsProbe::NotADirectory => if ends_with_slash(url_path) {
            SpecResolveState::Decided(SpecDecision::Redirect(strip_trailing_slash(url_path)))
        } else {
            SpecResolveState::Decided(SpecDecision::NotFound)
        },
        FsProbe::OtherError => SpecResolveState::Decided(SpecDecision::ServerError),
        FsProbe::Directory => if !ends_with_slash(url_path) {
            SpecResolveState::ProbeIndex {
                probe_path: index_probe_path(candidate),
                url_path: url_path,
            }
        } else {
            SpecResolveState::ReadTarget { target: index_in_dir(candidate) }
        },
        FsProbe::File => if ends_with_slash(url_path) {
            SpecResolveState::Decided(SpecDecision::ServerError)
        } else {
            SpecResolveState::ReadTarget { target: candidate }
        },
    }
}

/// The transition out of the index probe.
pub open spec fn spec_on_index_probe(url_path: Seq<u8>, probe: FsProbe) -> SpecResolveState {
    match probe {
        FsProbe::File => SpecResolveState::Decided(SpecDecision::Redirect(url_path.push(47))),
        FsProbe::Directory => SpecResolveState::Decided(SpecDecision::NotFound),
        FsProbe::NotFound => SpecResolveState::Decided(SpecDecision::NotFound),
        FsProbe::NotADirectory => SpecResolveState::Decided(SpecDecision::ServerError),
        FsProbe::OtherError => SpecResolveState::Decided(SpecDecision::ServerError),
    }
}

/// The transition out of the read.
pub open spec fn spec_on_read(read: SpecRead) -> SpecResolveState {
    match read {
        SpecRead::Content(c) => SpecResolveState::Decided(SpecDecision::Serve(c)),
        SpecRead::NotFound => SpecResolveState::Decided(SpecDecision::NotFound),
        SpecRead::OtherError => SpecResolveState::Decided(SpecDecision::ServerError),
    }
}

/// Whether `p` ends with `/`.
pub fn has_trailing_slash(p: &Vec<u8>) -> (b: bool)
    ensures
        b == ends_with_slash(p@),
{
    p.len() > 0 && p[p.len() - 1] == 47
}

/// A copy of `p` with one trailing slash stripped, if it carries one.
pub fn strip_slash(p: &Vec<u8>) -> (r: Vec<u8>)
    ensures
        r@ == strip_trailing_slash(p@),
{
    if has_trailing_slash(p) {
        let r = copy_range(p, 0, p.len() - 1);
        proof {
            assert(r@ =~= p@.drop_last());
        }
        r
    } else {
        let r = copy_range(p, 0, p.len());
        proof {
            assert(r@ =~= p@);
        }
        r
    }
}

/// Begins a resolution: the driver must stat the candidate entry.
pub fn resolve_start(hostname: &Vec<u8>, url_path: &Vec<u8>) -> (r: ResolveState)
    ensures
        r@ == spec_resolve_start(hostname@, url_path@),
{
    proof {
        reveal_strlit("web/");
    }
    let mut candidate = lit_bytes("web/");
    push_bytes(&mut candidate, hostname);
    push_bytes(&mut candidate, url_path);
    proof {
        assert(candidate@ =~= spec_candidate(hostname@, url_path@));
    }
    ResolveState::StatCandidate { candidate, url_path: clone_bytes(url_path) }
}

/// Takes the candidate stat result and moves the resolution on.
pub fn resolve_on_stat(candidate: &Vec<u8>, url_path: &Vec<u8>, probe: FsProbe)
    -> (r: ResolveState)
    ensures
        r@ == spec_on_stat(candidate@, url_path@, probe),
{
    match probe {
        FsProbe::NotFound => ResolveState::Decided(Decision::NotFound),
        FsProbe::NotADirectory => {
            if has_trailing_slash(url_path) {
                ResolveState::Decided(Decision::Redirect(strip_slash(url_path)))
            } else {
                ResolveState::Decided(Decision::NotFound)
            }
        },
        FsProbe::OtherError => ResolveState::Decided(Decision::ServerError),
        FsProbe::Directory => {
            if !has_trailing_slash(url_path) {
                proof {
                    reveal_strlit("/index.html");
                }
                let mut probe_path = clone_bytes(candidate);
                push_ascii(&mut probe_path, "/index.html");
                ResolveState::ProbeIndex { probe_path, url_path: clone_bytes(url_path) }
            } else {
                proof {
                    reveal_strlit("index.html");
                }
                let mut target = clone_bytes(candidate);
                push_ascii(&mut target, "index.html");
                ResolveState::ReadTarget { target }
            }
        },
        FsProbe::File => {
            if has_trailing_slash(url_path) {
                ResolveState::Decided(Decision::ServerError)
            } else {
                ResolveState::ReadTarget { target: clone_bytes(candidate) }
            }
        },
    }
}

/// Takes the index probe result and moves the resolution on.
pub fn resolve_on_index_probe(url_path: &Vec<u8>, probe: FsProbe) -> (r: ResolveState)
    ensures
        r@ == spec_on_index_probe(url_path@, probe),
{
    match probe {
        FsProbe::File => {
            let mut location = clone_bytes(url_path);
            location.push(47);
            ResolveState::Decided(Decision::Redirect(location))
        },
        FsProbe::Directory => ResolveState::Decided(Decision::NotFound),
        FsProbe::NotFound => ResolveState::Decided(Decision::NotFound),
        FsProbe::NotADirectory => ResolveState::Decided(Decision::ServerError),
        FsProbe::OtherError => ResolveState::Decided(Decision::ServerError),
    }
}

/// Takes the read result and ends the resolution.
pub fn resolve_on_read(read: ReadOutcome) -> (r: ResolveState)
    ensures
        r@ == spec_on_read(read@),
{
    match read {
        ReadOutcome::Content(c) => ResolveState::Decided(Decision::Serve(c)),
        ReadOutcome::NotFound => ResolveState::Decided(Decision::NotFound),
        ReadOutcome::OtherError => ResolveState::Decided(Decision::ServerError),
    }
}

/// Directory-index canonicalization, round trip.  A directory holding an
/// index file, requested without the trailing slash, is redirected to the
/// slash-terminated URL; the redirected request then reads the index file
/// and serves its contents, so repeating the redirected request never
/// redirects again.
pub proof fn lemma_index_redirect_round(hostname: Seq<u8>, url_path: Seq<u8>, content: Seq<u8>)
    requires
        !ends_with_slash(url_path),
    ensures
        spec_on_stat(spec_candidate(hostname, url_path), url_path, FsProbe::Directory)
            == (SpecResolveState::ProbeIndex {
            probe_path: index_probe_path(spec_candidate(hostname, url_path)),
            url_path: url_path,
        }),
        spec_on_index_probe(url_path, FsProbe::File) == SpecResolveState::Decided(
            SpecDecision::Redirect(url_path.push(47)),
        ),
        ends_with_slash(url_path.push(47)),
        spec_on_stat(
            spec_candidate(hostname, url_path.push(47)),
            url_path.push(47),
            FsProbe::Directory,
        ) == (SpecResolveState::ReadTarget {
            target: index_in_dir(spec_candidate(hostname, url_path.push(47))),
        }),
        spec_on_read(SpecRead::Content(content)) == SpecResolveState::Decided(
            SpecDecision::Serve(content),
        ),
{
}

/// Redundant-trailing-slash correction, round trip.  A URL path naming a
/// regular file but carrying a trailing slash makes the filesystem report
/// that a path component is not a directory; the request is redirected to
/// the stripped URL, and the stripped URL then reads and serves the file.
pub proof fn lemma_file_slash_redirect_round(hostname: Seq<u8>, file_path: Seq<u8>, content: Seq<u8>)
    requires
        !ends_with_slash(file_path),
    ensures
        spec_on_stat(
            spec_candidate(hostname, file_path.push(47)),
            file_path.push(47),
            FsProbe::NotADirectory,
        ) == SpecResolveState::Decided(SpecDecision::Redirect(file_path)),
        spec_on_stat(spec_candidate(hostname, file_path), file_path, FsProbe::File)
            == (SpecResolveState::ReadTarget { target: spec_candidate(hostname, file_path) }),
        spec_on_read(SpecRead::Content(content)) == SpecResolveState::Decided(
            SpecDecision::Serve(content),
        ),
{
    assert(strip_trailing_slash(file_path.push(47)) =~= file_path);
}

} // verus!
