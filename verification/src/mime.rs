//! MIME classification: a fixed mapping from a file extension to the
//! content type announced in a success response, with the protocol's own
//! document type first and `text/plain` as the fallback.

use vstd::prelude::*;

use crate::text::str_eq;

verus! {

/// The position of the last occurrence of `c` in `s`, or `-1` if none.
pub open spec fn last_index_of(s: Seq<char>, c: char) -> int
    decreases s.len(),
{
    if s.len() == 0 {
        -1
    } else if s.last() == c {
        s.len() - 1
    } else {
        last_index_of(s.drop_last(), c)
    }
}

/// The file extension of `path`: the text after the last `.` in the final
/// path segment, empty if that segment holds no `.`.
pub open spec fn extension_of(path: Seq<char>) -> Seq<char> {
    let dot = last_index_of(path, '.');
    if dot > last_index_of(path, '/') {
        path.subrange(dot + 1, path.len() as int)
    } else {
        Seq::<char>::empty()
    }
}

/// The content type served for `path`: the protocol's fixed type for its
/// own `gmi` documents, a standard mapping for a few common extensions, and
/// `text/plain` for everything else.
pub open spec fn classify_model(path: Seq<char>) -> Seq<char> {
    let e = extension_of(path);
    if e == "gmi"@ {
        "text/gemini; charset=utf-8"@
    } else if e == "html"@ {
        "text/html"@
    } else if e == "png"@ {
        "image/png"@
    } else if e == "jpg"@ || e == "jpeg"@ {
        "image/jpeg"@
    } else if e == "gif"@ {
        "image/gif"@
    } else if e == "pdf"@ {
        "application/pdf"@
    } else {
        "text/plain"@
    }
}

/// The position of the last occurrence of `c` in `s`, if any.
fn last_index_of_char(s: &str, c: char) -> (r: Option<usize>)
    ensures
        match r {
            Some(i) => i < s@.len() && last_index_of(s@, c) == i as int,
            None => last_index_of(s@, c) == -1,
        },
{
    let n = s.unicode_len();
    let mut k: usize = n;
    proof {
        assert(s@.subrange(0, n as int) =~= s@);
    }
    while k > 0
        invariant
            0 <= k <= n,
            n == s@.len(),
            last_index_of(s@, c) == last_index_of(s@.subrange(0, k as int), c),
        decreases k,
    {
        proof {
            assert(s@.subrange(0, k as int).last() == s@[k - 1]);
            assert(s@.subrange(0, k as int).drop_last() =~= s@.subrange(0, k as int - 1));
        }
        if s.get_char(k - 1) == c {
            return Some(k - 1);
        }
        k -= 1;
    }
    None
}

/// Classify `path` by its extension. A pure lookup with no failure mode.
pub fn classify(path: &str) -> (r: String)
    ensures
        r@ == classify_model(path@),
{
    let n = path.unicode_len();
    let dot = last_index_of_char(path, '.');
    let slash = last_index_of_char(path, '/');
    let ext: &str = match dot {
        Some(d) => {
            let after_slash = match slash {
                Some(sl) => d > sl,
                None => true,
            };
            if after_slash {
                path.substring_char(d + 1, n)
            } else {
                proof {
                    reveal_strlit("");
                }
                ""
            }
        },
        None => {
            proof {
                reveal_strlit("");
            }
            ""
        },
    };
    assert(ext@ == extension_of(path@));
    if str_eq(ext, "gmi") {
        String::from_str("text/gemini; charset=utf-8")
    } else if str_eq(ext, "html") {
        String::from_str("text/html")
    } else if str_eq(ext, "png") {
        String::from_str("image/png")
    } else if str_eq(ext, "jpg") || str_eq(ext, "jpeg") {
        String::from_str("image/jpeg")
    } else if str_eq(ext, "gif") {
        String::from_str("image/gif")
    } else if str_eq(ext, "pdf") {
        String::from_str("application/pdf")
    } else {
        String::from_str("text/plain")
    }
}

} // verus!
