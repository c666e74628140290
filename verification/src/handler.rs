//! The per-connection decisions, free of any I/O: from the raw bytes of one
//! read to either an error that aborts the connection or a filesystem
//! candidate, and from the filesystem's answers to the response served.
//!
//! The surrounding program performs the reads and writes and consults the
//! filesystem; every decision between those steps stands here. A parse
//! failure aborts the connection without a response; a failed file read
//! degrades to not-found.

use vstd::prelude::*;

use crate::error::{TaurusError, TaurusResult};
use crate::gemini::{parse_model, GeminiRequest, GeminiResponse, ParseModel};
use crate::mime::{classify, classify_model};
use crate::paths::{resolve, resolve_model};
use vstd::utf8::{decode_utf8, valid_utf8};

verus! {

/// Relies on `String::from_utf8`: it succeeds exactly on valid UTF-8 input
/// and returns the bytes' decoding.
#[verifier::external_body]
fn decode_request_bytes(bytes: &[u8]) -> (r: Option<String>)
    ensures
        r is Some <==> valid_utf8(bytes@),
        r matches Some(s) ==> s@ == decode_utf8(bytes@),
{
    match String::from_utf8(bytes.to_vec()) {
        Ok(s) => Some(s),
        Err(_) => None,
    }
}

/// `r` is exactly what `plan_request` must return for a read buffer
/// `buffer`: the parser's error, or `None` for a request that is refused
/// outright, or the candidate path to ask the filesystem about.
pub open spec fn plan_obeys(buffer: Seq<u8>, root: Seq<char>, r: TaurusResult<
    Option<String>,
>) -> bool {
    if !valid_utf8(buffer) {
        r matches Err(TaurusError::InvalidUnicode)
    } else {
        match parse_model(decode_utf8(buffer)) {
            ParseModel::Malformed => r matches Err(TaurusError::InvalidRequest(m)) && m@
                == "malformed request"@,
            ParseModel::BadScheme => r matches Err(TaurusError::InvalidRequest(m)) && m@
                == "invalid protocol"@,
            ParseModel::BadUrl(e) => r matches Err(TaurusError::InvalidRequest(m)) && m@
                == "invalid url: "@ + e,
            ParseModel::Parsed(_ser, p) => match resolve_model(p, root) {
                Some(c) => r matches Ok(o) && (o matches Some(q) && q@ == c),
                None => r matches Ok(o) && o is None,
            },
        }
    }
}

/// Decide what one read buffer asks for: decode it, parse the request line,
/// and map the requested path under the document root. `Err` is a
/// client-caused failure that aborts the connection; `Ok(None)` is a
/// request refused outright (answered not-found); `Ok(Some(p))` is the
/// candidate path whose existence the filesystem is to be asked about.
pub fn plan_request(buffer: &[u8], document_root: &str) -> (r: TaurusResult<Option<String>>)
    ensures
        plan_obeys(buffer@, document_root@, r),
{
    let text = match decode_request_bytes(buffer) {
        Some(s) => s,
        None => {
            return Err(TaurusError::InvalidUnicode);
        },
    };
    let request = match GeminiRequest::parse(text.as_str()) {
        Ok(q) => q,
        Err(e) => {
            return Err(e);
        },
    };
    Ok(resolve(request.path.as_str(), document_root))
}

/// The response served once the filesystem has answered for the resolved
/// file `resolved`: its content as a success response typed by
/// classification, or not-found when the read failed after all.
pub fn file_response(resolved: &str, content: Option<Vec<u8>>) -> (r: GeminiResponse)
    ensures
        r.well_formed(),
        (match content {
            Some(b) => {
                &&& r.status@ == seq![50u8, 48u8]
                &&& r.meta@ == vstd::utf8::encode_utf8(classify_model(resolved@))
                &&& r.body matches Some(bb) && bb@ == b@
            },
            None => {
                &&& r.status@ == seq![53u8, 49u8]
                &&& r.meta@ == vstd::utf8::encode_utf8("Resource not found"@)
                &&& r.body is None
            },
        }),
{
    match content {
        Some(bytes) => {
            let mime = classify(resolved);
            GeminiResponse::success(bytes, mime.as_str())
        },
        None => GeminiResponse::not_found(),
    }
}

} // verus!
