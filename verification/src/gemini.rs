//! The request/response protocol engine: parsing and validating the single
//! request line, and building and serializing responses.

use vstd::prelude::*;

use crate::error::{TaurusError, TaurusResult};
use crate::paths::{strip_first, strip_first_str};
use crate::text::{
    contains_seq, find_first_str, first_occurrence, is_first_occurrence,
    lemma_first_occurrence_is, occurs_at, starts_with_seq, starts_with_str, str_eq,
};
use crate::urls::{parse_url, url_error, url_parse_ok, url_path, url_serialization};

verus! {

/// `s` with its trailing NUL padding removed: what remains of an
/// under-filled read buffer once the unwritten bytes are dropped.
pub open spec fn trim_trailing_nulls(s: Seq<char>) -> Seq<char>
    decreases s.len(),
{
    if s.len() > 0 && s.last() == '\u{0}' {
        trim_trailing_nulls(s.drop_last())
    } else {
        s
    }
}

/// `s` ends with the protocol's line terminator, CR LF.
pub open spec fn ends_with_crlf(s: Seq<char>) -> bool {
    s.len() >= 2 && s[s.len() - 2] == '\r' && s[s.len() - 1] == '\n'
}

/// The request line names a scheme other than the protocol's own: it has a
/// `://` separator, does not begin with `//` (which implies the protocol's
/// scheme), and what stands before the first separator is not `gemini`.
pub open spec fn scheme_rejected(u: Seq<char>) -> bool {
    &&& !starts_with_seq(u, "//"@)
    &&& contains_seq(u, "://"@)
    &&& u.subrange(0, first_occurrence(u, "://"@)) != "gemini"@
}

/// The string handed to the URL parser once the scheme is accepted: a line
/// beginning with `//` gets `gemini:` prepended, a line with a separator is
/// passed as it stands, and a bare line gets the whole `gemini://` prefix.
pub open spec fn scheme_fixed(u: Seq<char>) -> Seq<char> {
    if starts_with_seq(u, "//"@) {
        "gemini:"@ + u
    } else if contains_seq(u, "://"@) {
        u
    } else {
        "gemini://"@ + u
    }
}

/// The outcome of parsing one request line, as a mathematical value.
pub ghost enum ParseModel {
    /// The line terminator was missing.
    Malformed,
    /// The line names a scheme other than the protocol's own.
    BadScheme,
    /// The URL parser rejected the fixed-up line; the field is its message.
    BadUrl(Seq<char>),
    /// The URL parser accepted the line: its serialization and its path.
    Parsed(Seq<char>, Seq<char>),
}

/// What the URL parser makes of the fixed-up line `v`.
pub open spec fn url_outcome(v: Seq<char>) -> ParseModel {
    if url_parse_ok(v) {
        ParseModel::Parsed(url_serialization(v), url_path(v))
    } else {
        ParseModel::BadUrl(url_error(v))
    }
}

/// The outcome of parsing raw request text `s`: trim the buffer padding,
/// require and strip the line terminator, fix up the scheme, and hand the
/// rest to the URL parser.
pub open spec fn parse_model(s: Seq<char>) -> ParseModel {
    let t = trim_trailing_nulls(s);
    if !ends_with_crlf(t) {
        ParseModel::Malformed
    } else {
        let u = t.subrange(0, t.len() - 2);
        if scheme_rejected(u) {
            ParseModel::BadScheme
        } else {
            url_outcome(scheme_fixed(u))
        }
    }
}

/// `r` is exactly what `parse` must return on raw input `s`: each model
/// outcome maps to one error variant with one message, or to the request
/// carrying the accepted URL.
pub open spec fn parse_obeys(s: Seq<char>, r: TaurusResult<GeminiRequest>) -> bool {
    match parse_model(s) {
        ParseModel::Malformed => r matches Err(TaurusError::InvalidRequest(m)) && m@
            == "malformed request"@,
        ParseModel::BadScheme => r matches Err(TaurusError::InvalidRequest(m)) && m@
            == "invalid protocol"@,
        ParseModel::BadUrl(e) => r matches Err(TaurusError::InvalidRequest(m)) && m@
            == "invalid url: "@ + e,
        ParseModel::Parsed(ser, p) => r matches Ok(q) && q.url@ == ser && q.path@ == p,
    }
}

/// One validated request: the accepted URL, held as its serialization and
/// its path component.
#[derive(Debug)]
pub struct GeminiRequest {
    /// The serialization of the accepted URL.
    pub url: String,
    /// The URL's path component, percent-encoded, as the URL parser reports
    /// it: empty or beginning with a slash.
    pub path: String,
}

impl GeminiRequest {
    /// Parse and validate one raw request line.
    pub fn parse(request: &str) -> (r: TaurusResult<GeminiRequest>)
        ensures
            parse_obeys(request@, r),
    {
        proof {
            reveal_strlit("//");
            reveal_strlit("://");
            reveal_strlit("gemini");
            reveal_strlit("gemini:");
            reveal_strlit("gemini://");
        }
        let ghost s = request@;
        // Trim the NUL padding of an under-filled read buffer.
        let n = request.unicode_len();
        let mut k: usize = n;
        proof {
            assert(s.subrange(0, n as int) =~= s);
        }
        while k > 0 && request.get_char(k - 1) == '\u{0}'
            invariant
                0 <= k <= n,
                n == s.len(),
                s == request@,
                trim_trailing_nulls(s) == trim_trailing_nulls(s.subrange(0, k as int)),
            decreases k,
        {
            proof {
                assert(s.subrange(0, k as int).last() == '\u{0}');
                assert(s.subrange(0, k as int).drop_last() =~= s.subrange(0, k as int - 1));
            }
            k -= 1;
        }
        let t = request.substring_char(0, k);
        proof {
            assert(t@ =~= s.subrange(0, k as int));
            assert(trim_trailing_nulls(t@) == t@);
            assert(trim_trailing_nulls(s) == t@);
        }
        // The line must close with CR LF; strip it.
        if k < 2 || t.get_char(k - 2) != '\r' || t.get_char(k - 1) != '\n' {
            assert(!ends_with_crlf(trim_trailing_nulls(s)));
            return Err(TaurusError::InvalidRequest(String::from_str("malformed request")));
        }
        assert(ends_with_crlf(trim_trailing_nulls(s)));
        let u = t.substring_char(0, k - 2);
        proof {
            assert(u@ =~= trim_trailing_nulls(s).subrange(0, trim_trailing_nulls(s).len() - 2));
        }
        // Fix up the scheme: `//` implies gemini, a foreign scheme is
        // refused, a bare line gets the full prefix.
        let v: String;
        if starts_with_str(u, "//") {
            v = String::from_str("gemini:").concat(u);
        } else {
            match find_first_str(u, "://") {
                Some(i) => {
                    proof {
                        lemma_first_occurrence_is(u@, "://"@, i as int);
                    }
                    let scheme = u.substring_char(0, i);
                    if !str_eq(scheme, "gemini") {
                        assert(scheme_rejected(u@));
                        return Err(TaurusError::InvalidRequest(String::from_str(
                            "invalid protocol",
                        )));
                    }
                    assert(!scheme_rejected(u@));
                    v = u.to_owned();
                },
                None => {
                    v = String::from_str("gemini://").concat(u);
                },
            }
        }
        assert(!scheme_rejected(u@));
        assert(v@ == scheme_fixed(u@));
        // Hand the fixed-up line to the URL parser.
        match parse_url(v.as_str()) {
            Ok(pair) => Ok(GeminiRequest { url: pair.0, path: pair.1 }),
            Err(e) => Err(TaurusError::InvalidRequest(String::from_str("invalid url: ").concat(
                e.as_str(),
            ))),
        }
    }

    /// The requested file path relative to the document root: the URL's path
    /// component with its first character, the leading slash, removed.
    pub fn file_path(&self) -> (r: &str)
        ensures
            r@ == strip_first(self.path@),
    {
        strip_first_str(self.path.as_str())
    }
}

/// One response: a two-byte status, a metadata line (the MIME type on
/// success, a human-readable reason otherwise), and an optional body.
/// A body is present exactly when the status signals success.
#[derive(Debug)]
pub struct GeminiResponse {
    pub status: [u8; 2],
    pub meta: Vec<u8>,
    pub body: Option<Vec<u8>>,
}

impl GeminiResponse {
    /// The wire form: status, a space, the metadata, CR LF, then the body
    /// if there is one. The metadata must hold no line terminator; nothing
    /// is escaped here.
    pub open spec fn wire_bytes(&self) -> Seq<u8> {
        self.status@ + seq![32u8] + self.meta@ + seq![13u8, 10u8] + (match self.body {
            Some(b) => b@,
            None => Seq::<u8>::empty(),
        })
    }

    /// The response's invariant: a body is present exactly when the status
    /// is the success code `20`.
    pub open spec fn well_formed(&self) -> bool {
        self.body is Some <==> self.status@ == seq![50u8, 48u8]
    }

    /// A success response: status `20`, the given MIME type as metadata,
    /// and the file's bytes as body.
    pub fn success(body: Vec<u8>, mime_type: &str) -> (r: GeminiResponse)
        ensures
            r.well_formed(),
            r.status@ == seq![50u8, 48u8],
            r.meta@ == vstd::utf8::encode_utf8(mime_type@),
            r.body matches Some(b) && b@ == body@,
    {
        GeminiResponse { status: [50u8, 48u8], meta: mime_type.as_bytes_vec(), body: Some(body) }
    }

    /// A not-found response: status `51`, a fixed reason, no body.
    pub fn not_found() -> (r: GeminiResponse)
        ensures
            r.well_formed(),
            r.status@ == seq![53u8, 49u8],
            r.meta@ == vstd::utf8::encode_utf8("Resource not found"@),
            r.body is None,
    {
        GeminiResponse {
            status: [53u8, 49u8],
            meta: "Resource not found".as_bytes_vec(),
            body: None,
        }
    }

    /// Serialize the whole response into the bytes written to the stream.
    pub fn serialize(&self) -> (r: Vec<u8>)
        ensures
            r@ == self.wire_bytes(),
    {
        let mut buf: Vec<u8> = Vec::new();
        buf.push(self.status[0]);
        buf.push(self.status[1]);
        buf.push(32u8);
        let mut i: usize = 0;
        while i < self.meta.len()
            invariant
                0 <= i <= self.meta.len(),
                buf@ == self.status@ + seq![32u8] + self.meta@.subrange(0, i as int),
            decreases self.meta.len() - i,
        {
            buf.push(self.meta[i]);
            proof {
                assert(self.meta@.subrange(0, i + 1) =~= self.meta@.subrange(0, i as int)
                    + seq![self.meta@[i as int]]);
            }
            i += 1;
        }
        proof {
            assert(self.meta@.subrange(0, self.meta@.len() as int) =~= self.meta@);
        }
        buf.push(13u8);
        buf.push(10u8);
        match &self.body {
            Some(body) => {
                let mut j: usize = 0;
                while j < body.len()
                    invariant
                        0 <= j <= body.len(),
                        buf@ == self.status@ + seq![32u8] + self.meta@ + seq![13u8, 10u8]
                            + body@.subrange(0, j as int),
                        self.body matches Some(b) && b == body,
                    decreases body.len() - j,
                {
                    buf.push(body[j]);
                    proof {
                        assert(body@.subrange(0, j + 1) =~= body@.subrange(0, j as int)
                            + seq![body@[j as int]]);
                    }
                    j += 1;
                }
                proof {
                    assert(body@.subrange(0, body@.len() as int) =~= body@);
                    assert(buf@ =~= self.wire_bytes());
                }
            },
            None => {
                proof {
                    assert(buf@ =~= self.wire_bytes());
                }
            },
        }
        buf
    }
}

/// The parser treats a request line without a scheme as carrying the
/// protocol's own: for every line `host` that holds no `://` separator and
/// does not begin with `//`, the raw requests `host + CRLF` and
/// `gemini://host + CRLF` parse to the very same outcome.
pub proof fn lemma_parse_scheme_implied(host: Seq<char>)
    requires
        !contains_seq(host, "://"@),
        !starts_with_seq(host, "//"@),
    ensures
        parse_model(host + "\r\n"@) == parse_model(("gemini://"@ + host) + "\r\n"@),
{
    reveal_strlit("\r\n");
    reveal_strlit("//");
    reveal_strlit("://");
    reveal_strlit("gemini");
    reveal_strlit("gemini://");
    let s1 = host + "\r\n"@;
    let s2 = ("gemini://"@ + host) + "\r\n"@;
    assert(trim_trailing_nulls(s1) == s1);
    assert(trim_trailing_nulls(s2) == s2);
    assert(ends_with_crlf(s1));
    assert(ends_with_crlf(s2));
    let u1 = s1.subrange(0, s1.len() - 2);
    let u2 = s2.subrange(0, s2.len() - 2);
    assert(u1 =~= host);
    assert(u2 =~= "gemini://"@ + host);
    // The left side: no separator, no leading `//`, so the full prefix is
    // prepended.
    assert(!scheme_rejected(u1));
    assert(scheme_fixed(u1) == "gemini://"@ + host);
    // The right side: the separator first occurs at position 6 and what
    // stands before it is exactly `gemini`.
    assert(occurs_at(u2, "://"@, 6)) by {
        assert(u2.subrange(6, 9) =~= "://"@);
    }
    assert forall|j: int| 0 <= j < 6 implies !occurs_at(u2, "://"@, j) by {
        if occurs_at(u2, "://"@, j) {
            assert(u2.subrange(j, j + 3)[0] == u2[j]);
            assert(u2[j] == ':');
        }
    }
    assert(is_first_occurrence(u2, "://"@, 6));
    lemma_first_occurrence_is(u2, "://"@, 6);
    assert(!starts_with_seq(u2, "//"@)) by {
        if starts_with_seq(u2, "//"@) {
            assert(u2.subrange(0, 2)[0] == u2[0]);
        }
    }
    assert(u2.subrange(0, 6) =~= "gemini"@);
    assert(!scheme_rejected(u2));
    assert(scheme_fixed(u2) == u2);
    assert(scheme_fixed(u1) =~= scheme_fixed(u2));
}

/// A raw request whose trimmed text does not close with the line terminator
/// always parses as malformed.
pub proof fn lemma_missing_terminator_is_malformed(s: Seq<char>)
    requires
        !ends_with_crlf(trim_trailing_nulls(s)),
    ensures
        parse_model(s) == ParseModel::Malformed,
{
}

/// The round trip of building a success response and serializing it: the
/// wire form begins with `20`, a space, the MIME type and the line
/// terminator, followed by exactly the body.
pub proof fn lemma_success_serialization(r: GeminiResponse, body: Seq<u8>, mime: Seq<char>)
    requires
        r.status@ == seq![50u8, 48u8],
        r.meta@ == vstd::utf8::encode_utf8(mime),
        r.body matches Some(b) && b@ == body,
    ensures
        r.wire_bytes() == seq![50u8, 48u8, 32u8] + vstd::utf8::encode_utf8(mime) + seq![
            13u8,
            10u8,
        ] + body,
        r.wire_bytes().subrange(
            r.wire_bytes().len() - body.len(),
            r.wire_bytes().len() as int,
        ) == body,
{
    assert(r.wire_bytes() =~= seq![50u8, 48u8, 32u8] + vstd::utf8::encode_utf8(mime) + seq![
        13u8,
        10u8,
    ] + body);
    assert(r.wire_bytes().subrange(r.wire_bytes().len() - body.len(), r.wire_bytes().len() as int)
        =~= body);
}

} // verus!
