//! The path resolver: joining the root directory with a URL path.

use vstd::prelude::*;

verus! {

/// The byte value of `/`.
pub const SLASH: u8 = 47;

/// The URL path with its single leading slash removed; a path that does not
/// begin with a slash is kept as it is.
pub open spec fn spec_strip_leading_slash(path: Seq<u8>) -> Seq<u8> {
    if path.len() >= 1 && path[0] == SLASH {
        path.skip(1)
    } else {
        path
    }
}

/// The candidate filesystem path for a URL path: the root directory joined
/// with the URL path stripped of its leading slash.  A separator is inserted
/// unless the root is empty or already ends with one.  No other
/// normalization is performed, so `..` segments pass through unchanged.
pub open spec fn spec_resolve(root: Seq<u8>, path: Seq<u8>) -> Seq<u8> {
    let rel = spec_strip_leading_slash(path);
    if root.len() == 0 {
        rel
    } else if root[root.len() - 1] == SLASH {
        root + rel
    } else {
        root + seq![SLASH] + rel
    }
}

/// Joins the root directory with `url_path` stripped of its leading slash.
/// The resolver never fails: every input yields a candidate path, whether or
/// not anything exists there.
pub fn resolve_path(root: &[u8], url_path: &[u8]) -> (r: Vec<u8>)
    ensures
        r@ == spec_resolve(root@, url_path@),
{
    let mut out: Vec<u8> = Vec::new();
    let mut i: usize = 0;
    while i < root.len()
        invariant
            i <= root.len(),
            out@ == root@.subrange(0, i as int),
        decreases root.len() - i,
    {
        out.push(root[i]);
        i = i + 1;
    }
    assert(out@ =~= root@);
    if root.len() > 0 && root[root.len() - 1] != SLASH {
        out.push(SLASH);
    }
    let ghost joined: Seq<u8> = out@;
    let start: usize = if url_path.len() >= 1 && url_path[0] == SLASH {
        1
    } else {
        0
    };
    let mut j: usize = start;
    while j < url_path.len()
        invariant
            start <= j <= url_path.len(),
            out@ == joined + url_path@.subrange(start as int, j as int),
        decreases url_path.len() - j,
    {
        out.push(url_path[j]);
        j = j + 1;
    }
    proof {
        assert(url_path@.subrange(start as int, url_path@.len() as int) =~= spec_strip_leading_slash(
            url_path@,
        ));
        assert(out@ =~= spec_resolve(root@, url_path@));
    }
    out
}

} // verus!
