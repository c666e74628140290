//! Path resolution: mapping a requested URL path and a document root to a
//! filesystem candidate, with traversal protection, and substituting the
//! canonical index file for directories.
//!
//! All checks are textual, made before any filesystem is consulted; the
//! separator and root marker are the platform's `/`.

use vstd::prelude::*;

use crate::text::{contains_seq, contains_str, occurs_at, starts_with_seq};

verus! {

/// `s` with exactly its first character removed (the URL path's leading
/// slash); the empty sequence stays empty.
pub open spec fn strip_first(s: Seq<char>) -> Seq<char> {
    if s.len() == 0 {
        s
    } else {
        s.subrange(1, s.len() as int)
    }
}

/// The fragment, read as a filesystem path, is absolute.
pub open spec fn is_rooted(s: Seq<char>) -> bool {
    s.len() > 0 && s[0] == '/'
}

/// The fragment joined under the document root: `root`, a separator unless
/// one is already there, then the fragment. An empty fragment yields the
/// root itself.
pub open spec fn joined(root: Seq<char>, frag: Seq<char>) -> Seq<char> {
    if frag.len() == 0 {
        root
    } else if root.len() > 0 && root.last() == '/' {
        root + frag
    } else {
        root + "/"@ + frag
    }
}

/// What `resolve` returns: the joined candidate, or nothing when the
/// fragment is absolute or holds a parent-directory segment.
pub open spec fn resolve_model(path: Seq<char>, root: Seq<char>) -> Option<Seq<char>> {
    let frag = strip_first(path);
    if is_rooted(frag) || contains_seq(frag, ".."@) {
        None
    } else {
        Some(joined(root, frag))
    }
}

/// `s` with its first character removed.
pub fn strip_first_str(s: &str) -> (r: &str)
    ensures
        r@ == strip_first(s@),
{
    let n = s.unicode_len();
    if n == 0 {
        proof {
            reveal_strlit("");
        }
        ""
    } else {
        s.substring_char(1, n)
    }
}

/// Join `frag` under `root` with the platform separator.
fn join_under_root(root: &str, frag: &str) -> (r: String)
    ensures
        r@ == joined(root@, frag@),
{
    let n = root.unicode_len();
    if frag.unicode_len() == 0 {
        root.to_owned()
    } else if n > 0 && root.get_char(n - 1) == '/' {
        root.to_owned().concat(frag)
    } else {
        root.to_owned().concat("/").concat(frag)
    }
}

/// Map a requested URL path onto the document root: strip the leading slash,
/// refuse absolute fragments and fragments containing `..`, and join the
/// rest under the root. `None` means the request is not served (not found);
/// no filesystem is consulted here.
pub fn resolve(path: &str, document_root: &str) -> (r: Option<String>)
    ensures
        (match resolve_model(path@, document_root@) {
            Some(m) => r matches Some(p) && p@ == m,
            None => r is None,
        }),
{
    proof {
        reveal_strlit("..");
    }
    let frag = strip_first_str(path);
    if frag.unicode_len() > 0 && frag.get_char(0) == '/' {
        return None;
    }
    if contains_str(frag, "..") {
        return None;
    }
    Some(join_under_root(document_root, frag))
}

/// What `resolve_path` returns: the path itself for a file, the canonical
/// index file under it for a directory.
pub open spec fn resolved_model(path: Seq<char>, is_dir: bool) -> Seq<char> {
    if !is_dir {
        path
    } else if path.len() == 0 {
        "index.gmi"@
    } else if path.last() == '/' {
        path + "index.gmi"@
    } else {
        path + "/index.gmi"@
    }
}

/// Resolve a candidate to the file to serve: a path known to be a directory
/// gets the canonical index file `index.gmi` joined under it; any other path
/// is returned unchanged. The caller supplies `is_dir`, the filesystem's
/// answer for `path`.
pub fn resolve_path(path: &str, is_dir: bool) -> (r: String)
    ensures
        r@ == resolved_model(path@, is_dir),
{
    let n = path.unicode_len();
    if !is_dir {
        path.to_owned()
    } else if n == 0 {
        String::from_str("index.gmi")
    } else if path.get_char(n - 1) == '/' {
        path.to_owned().concat("index.gmi")
    } else {
        path.to_owned().concat("/index.gmi")
    }
}

/// Traversal protection: whatever the request, a candidate that `resolve`
/// returns extends the document root, and the part it adds below the root
/// holds no `..` segment. In particular, a request path whose fragment
/// contains `..` anywhere is never resolved at all.
pub proof fn lemma_resolve_confined(path: Seq<char>, root: Seq<char>)
    ensures
        contains_seq(strip_first(path), ".."@) ==> resolve_model(path, root) is None,
        (resolve_model(path, root) matches Some(p) ==> starts_with_seq(p, root)
            && !contains_seq(p.subrange(root.len() as int, p.len() as int), ".."@)),
{
    reveal_strlit("/");
    reveal_strlit("..");
    let frag = strip_first(path);
    if !is_rooted(frag) && !contains_seq(frag, ".."@) {
        let p = joined(root, frag);
        if frag.len() == 0 {
            assert(p.subrange(0, root.len() as int) =~= root);
            assert(forall|i: int| !occurs_at(p.subrange(root.len() as int, p.len() as int), ".."@, i));
        } else if root.len() > 0 && root.last() == '/' {
            assert(p.subrange(0, root.len() as int) =~= root);
            let suffix = p.subrange(root.len() as int, p.len() as int);
            assert(suffix =~= frag);
        } else {
            assert(p.subrange(0, root.len() as int) =~= root);
            let suffix = p.subrange(root.len() as int, p.len() as int);
            assert(suffix =~= "/"@ + frag);
            assert forall|i: int| !occurs_at(suffix, ".."@, i) by {
                if occurs_at(suffix, ".."@, i) {
                    assert(suffix.subrange(i, i + 2)[0] == suffix[i]);
                    assert(suffix.subrange(i, i + 2)[1] == suffix[i + 1]);
                    assert(suffix[i] == '.' && suffix[i + 1] == '.');
                    if i == 0 {
                        assert(suffix[0] == '/');
                    } else {
                        assert(frag.subrange(i - 1, i + 1) =~= ".."@) by {
                            assert(frag[i - 1] == suffix[i]);
                            assert(frag[i] == suffix[i + 1]);
                        }
                        assert(occurs_at(frag, ".."@, i - 1));
                    }
                }
            }
        }
    }
}

} // verus!
