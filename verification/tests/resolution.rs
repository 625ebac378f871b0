//! The path-resolution state machine and the client identity rule.

use apex::client::{client_identity, ClientIdentity, Peer, PeerIp};
use apex::headers::HeaderMap;
use apex::resolve::{
    resolve_on_index_probe, resolve_on_read, resolve_on_stat, resolve_start, Decision, FsProbe,
    ReadOutcome, ResolveState,
};

fn v4(a: u8, b: u8, c: u8, d: u8, port: u16) -> Peer {
    Peer { ip: PeerIp::V4 { a, b, c, d }, port }
}

#[test]
fn start_builds_candidate_under_root() {
    match resolve_start(&b"a.test".to_vec(), &b"/docs".to_vec()) {
        ResolveState::StatCandidate { candidate, url_path } => {
            assert_eq!(candidate, b"web/a.test/docs".to_vec());
            assert_eq!(url_path, b"/docs".to_vec());
        }
        _ => panic!("resolution must begin with a stat"),
    }
}

#[test]
fn stat_missing_entry_is_not_found() {
    match resolve_on_stat(&b"web/a.test/missing".to_vec(), &b"/missing".to_vec(), FsProbe::NotFound)
    {
        ResolveState::Decided(Decision::NotFound) => {}
        _ => panic!("a missing entry falls through to not-found"),
    }
}

#[test]
fn stat_directory_without_slash_probes_index() {
    match resolve_on_stat(&b"web/a.test/docs".to_vec(), &b"/docs".to_vec(), FsProbe::Directory) {
        ResolveState::ProbeIndex { probe_path, url_path } => {
            assert_eq!(probe_path, b"web/a.test/docs/index.html".to_vec());
            assert_eq!(url_path, b"/docs".to_vec());
        }
        _ => panic!("a slashless directory URL probes the index"),
    }
}

#[test]
fn stat_directory_with_slash_reads_index() {
    match resolve_on_stat(&b"web/a.test/docs/".to_vec(), &b"/docs/".to_vec(), FsProbe::Directory) {
        ResolveState::ReadTarget { target } => {
            assert_eq!(target, b"web/a.test/docs/index.html".to_vec());
        }
        _ => panic!("a slash-terminated directory URL reads the index"),
    }
}

#[test]
fn stat_file_reads_it() {
    match resolve_on_stat(&b"web/a.test/readme.txt".to_vec(), &b"/readme.txt".to_vec(), FsProbe::File)
    {
        ResolveState::ReadTarget { target } => {
            assert_eq!(target, b"web/a.test/readme.txt".to_vec());
        }
        _ => panic!("a plain file is read"),
    }
}

#[test]
fn stat_file_under_slash_url_is_invariant_violation() {
    match resolve_on_stat(&b"web/a.test/x/".to_vec(), &b"/x/".to_vec(), FsProbe::File) {
        ResolveState::Decided(Decision::ServerError) => {}
        _ => panic!("a slash-terminated URL resolving to a file is a server error"),
    }
}

#[test]
fn stat_not_a_directory_redirects_stripped() {
    match resolve_on_stat(
        &b"web/a.test/readme.txt/".to_vec(),
        &b"/readme.txt/".to_vec(),
        FsProbe::NotADirectory,
    ) {
        ResolveState::Decided(Decision::Redirect(location)) => {
            assert_eq!(location, b"/readme.txt".to_vec());
        }
        _ => panic!("a file reached with a trailing slash redirects to the stripped URL"),
    }
}

#[test]
fn stat_not_a_directory_without_slash_is_not_found() {
    // A file standing as a non-final path component: there is no trailing
    // slash to strip, so the entry is absent content, not a redirect.
    match resolve_on_stat(
        &b"web/a.test/readme.txt/extra".to_vec(),
        &b"/readme.txt/extra".to_vec(),
        FsProbe::NotADirectory,
    ) {
        ResolveState::Decided(Decision::NotFound) => {}
        _ => panic!("a slashless not-a-directory report falls through to not-found"),
    }
}

#[test]
fn stat_other_error_is_server_error() {
    match resolve_on_stat(&b"web/a.test/x".to_vec(), &b"/x".to_vec(), FsProbe::OtherError) {
        ResolveState::Decided(Decision::ServerError) => {}
        _ => panic!("an unexpected stat failure is a server error"),
    }
}

#[test]
fn index_probe_file_redirects_with_slash() {
    match resolve_on_index_probe(&b"/docs".to_vec(), FsProbe::File) {
        ResolveState::Decided(Decision::Redirect(location)) => {
            assert_eq!(location, b"/docs/".to_vec());
        }
        _ => panic!("a present index redirects to the canonical slash URL"),
    }
}

#[test]
fn index_probe_missing_is_not_found() {
    match resolve_on_index_probe(&b"/docs".to_vec(), FsProbe::NotFound) {
        ResolveState::Decided(Decision::NotFound) => {}
        _ => panic!("a directory with no index is absent content"),
    }
    match resolve_on_index_probe(&b"/docs".to_vec(), FsProbe::Directory) {
        ResolveState::Decided(Decision::NotFound) => {}
        _ => panic!("an index entry that is not a file is absent content"),
    }
}

#[test]
fn index_probe_failure_is_server_error() {
    match resolve_on_index_probe(&b"/docs".to_vec(), FsProbe::OtherError) {
        ResolveState::Decided(Decision::ServerError) => {}
        _ => panic!("an unexpected probe failure is a server error"),
    }
}

#[test]
fn read_results() {
    match resolve_on_read(ReadOutcome::Content(b"hello".to_vec())) {
        ResolveState::Decided(Decision::Serve(content)) => assert_eq!(content, b"hello".to_vec()),
        _ => panic!("read contents are served"),
    }
    match resolve_on_read(ReadOutcome::NotFound) {
        ResolveState::Decided(Decision::NotFound) => {}
        _ => panic!("an entry that vanished is tolerated as not-found"),
    }
    match resolve_on_read(ReadOutcome::OtherError) {
        ResolveState::Decided(Decision::ServerError) => {}
        _ => panic!("an unexpected read failure is a server error"),
    }
}

#[test]
fn identity_private_peer_with_real_ip_is_proxied() {
    let mut headers = HeaderMap::new();
    headers.insert(b"x-real-ip".to_vec(), b"203.0.113.9".to_vec());
    match client_identity(&v4(192, 168, 1, 5, 40000), &headers) {
        ClientIdentity::Proxied { real_ip, port } => {
            assert_eq!(real_ip, b"203.0.113.9".to_vec());
            assert_eq!(port, 40000);
        }
        ClientIdentity::Direct => panic!("a private peer with x-real-ip is proxied"),
    }
}

#[test]
fn identity_public_peer_is_direct() {
    let mut headers = HeaderMap::new();
    headers.insert(b"x-real-ip".to_vec(), b"203.0.113.9".to_vec());
    assert!(matches!(
        client_identity(&v4(8, 8, 8, 8, 40000), &headers),
        ClientIdentity::Direct
    ));
}

#[test]
fn identity_private_peer_without_header_is_direct() {
    let headers = HeaderMap::new();
    assert!(matches!(
        client_identity(&v4(10, 0, 0, 2, 1234), &headers),
        ClientIdentity::Direct
    ));
}

#[test]
fn identity_private_ranges() {
    let mut headers = HeaderMap::new();
    headers.insert(b"x-real-ip".to_vec(), b"p".to_vec());
    let proxied = |p: Peer| matches!(client_identity(&p, &headers), ClientIdentity::Proxied { .. });
    assert!(proxied(v4(10, 1, 2, 3, 1)));
    assert!(proxied(v4(172, 16, 0, 1, 1)));
    assert!(proxied(v4(172, 31, 255, 1, 1)));
    assert!(proxied(v4(192, 168, 0, 1, 1)));
    assert!(!proxied(v4(172, 15, 0, 1, 1)));
    assert!(!proxied(v4(172, 32, 0, 1, 1)));
    assert!(!proxied(v4(192, 169, 0, 1, 1)));
    assert!(!proxied(v4(11, 0, 0, 1, 1)));
    assert!(!proxied(Peer { ip: PeerIp::V6, port: 1 }));
}
