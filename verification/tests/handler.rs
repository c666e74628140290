//! End-to-end runs of the connection handler's decision steps, with the
//! filesystem's answers supplied by the test.

use taurus::error::TaurusError;
use taurus::handler::{file_response, plan_request};
use taurus::paths::resolve_path;

/// A 1024-byte read buffer holding `request`, zero-padded as a short read
/// leaves it.
fn read_buffer(request: &[u8]) -> Vec<u8> {
    let mut buf = vec![0u8; 1024];
    buf[..request.len()].copy_from_slice(request);
    buf
}

#[test]
fn end_to_end_index_document() {
    let root = "/srv/gemini";
    let buf = read_buffer(b"gemini://example.space/\r\n");
    let candidate = plan_request(&buf, root).unwrap().unwrap();
    assert_eq!(candidate, "/srv/gemini");

    // The filesystem finds the candidate and reports a directory holding
    // `index.gmi` with content `hi`.
    let resolved = resolve_path(&candidate, true);
    assert_eq!(resolved, "/srv/gemini/index.gmi");
    let response = file_response(&resolved, Some(b"hi".to_vec()));
    assert_eq!(
        response.serialize(),
        b"20 text/gemini; charset=utf-8\r\nhi".to_vec()
    );
}

#[test]
fn end_to_end_traversal_is_not_found() {
    let root = "/srv/gemini";
    let buf = read_buffer(b"gemini://example.space/../../etc/passwd\r\n");
    match plan_request(&buf, root) {
        // The URL parser collapses the dot segments, so the candidate stays
        // under the root; the file is simply absent there.
        Ok(Some(candidate)) => {
            assert_eq!(candidate, "/srv/gemini/etc/passwd");
            let bytes = taurus::gemini::GeminiResponse::not_found().serialize();
            assert_eq!(&bytes[..3], b"51 ");
        }
        // A fragment still holding `..` is refused outright; it too is
        // answered not-found.
        Ok(None) => {}
        Err(e) => panic!("expected a planned outcome, got: {:?}", e),
    }
}

#[test]
fn end_to_end_encoded_traversal_is_refused() {
    let root = "/srv/gemini";
    // `..%2F` percent-decodes to `../` but is no dot segment to the URL
    // parser, so `..` survives into the path and the resolver refuses it.
    let buf = read_buffer(b"gemini://example.space/..%2Fetc\r\n");
    assert!(matches!(plan_request(&buf, root), Ok(None)));
}

#[test]
fn end_to_end_missing_terminator_aborts() {
    // Policy, fixed here as the contract: a parse failure aborts the
    // connection with the parser's error; no response bytes are produced.
    let buf = read_buffer(b"gemini://example.space");
    match plan_request(&buf, "/srv/gemini") {
        Err(TaurusError::InvalidRequest(m)) => assert_eq!(m, "malformed request"),
        x => panic!("expected TaurusError::InvalidRequest, got: {:?}", x),
    }
}

#[test]
fn end_to_end_invalid_encoding() {
    let buf = read_buffer(&[0xff, 0xfe, 0x0d, 0x0a]);
    assert!(matches!(
        plan_request(&buf, "/srv/gemini"),
        Err(TaurusError::InvalidUnicode)
    ));
}

#[test]
fn end_to_end_absolute_fragment_is_refused() {
    let buf = read_buffer(b"gemini://example.space//etc/passwd\r\n");
    assert!(matches!(plan_request(&buf, "/srv/gemini"), Ok(None)));
}

#[test]
fn failed_file_read_degrades_to_not_found() {
    // The existence check passed, the read then failed: the response is the
    // same not-found the absent file would get.
    let response = file_response("/srv/gemini/file.gmi", None);
    assert_eq!(response.serialize(), b"51 Resource not found\r\n".to_vec());
}

#[test]
fn served_file_is_classified_by_extension() {
    let response = file_response("/srv/gemini/readme.txt", Some(b"x".to_vec()));
    assert_eq!(response.serialize(), b"20 text/plain\r\nx".to_vec());
}
