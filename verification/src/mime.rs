//! Extension lookup and content-type classification.
//!
//! The content type of a served file is chosen by the extension of its
//! filesystem path: the bytes after the last dot of the final path
//! component, matched case-sensitively against a closed table.  Anything
//! else, including a missing extension, falls back to
//! `application/octet-stream`.

use vstd::prelude::*;
use crate::resolve::SLASH;
use crate::scan::{find_last, last_index_of, lemma_last_index_of_bounds, lemma_last_index_of_suffix};

verus! {

/// The byte value of `.`.
pub const DOT: u8 = 46;

/// The final component of a path: everything after the last `/`, or the
/// whole path if it has no `/`.
pub open spec fn spec_file_name(path: Seq<u8>) -> Seq<u8> {
    path.subrange(last_index_of(path, SLASH) + 1, path.len() as int)
}

/// The extension of a path: the bytes after the last `.` of its final
/// component, provided that dot is preceded by at least one byte of the
/// component.  A name with no dot, or with its only dot first (a hidden
/// file), has no extension.
pub open spec fn spec_extension(path: Seq<u8>) -> Option<Seq<u8>> {
    let name = spec_file_name(path);
    let d = last_index_of(name, DOT);
    if d >= 1 {
        Option::Some(name.subrange(d + 1, name.len() as int))
    } else {
        Option::None
    }
}

/// `html` as bytes.
pub open spec fn ext_html() -> Seq<u8> {
    seq![104u8, 116u8, 109u8, 108u8]
}

/// `css` as bytes.
pub open spec fn ext_css() -> Seq<u8> {
    seq![99u8, 115u8, 115u8]
}

/// `js` as bytes.
pub open spec fn ext_js() -> Seq<u8> {
    seq![106u8, 115u8]
}

/// `jpg` as bytes.
pub open spec fn ext_jpg() -> Seq<u8> {
    seq![106u8, 112u8, 103u8]
}

/// `jpeg` as bytes.
pub open spec fn ext_jpeg() -> Seq<u8> {
    seq![106u8, 112u8, 101u8, 103u8]
}

/// `png` as bytes.
pub open spec fn ext_png() -> Seq<u8> {
    seq![112u8, 110u8, 103u8]
}

/// `zip` as bytes.
pub open spec fn ext_zip() -> Seq<u8> {
    seq![122u8, 105u8, 112u8]
}

/// The closed set of content types the server distinguishes.
#[derive(Clone, Copy, Debug, PartialEq, Eq, Structural)]
pub enum MimeKind {
    Html,
    Css,
    Js,
    Jpeg,
    Png,
    Zip,
    Other,
}

/// The table mapping an extension to its content-type kind; unmatched and
/// missing extensions map to `Other`.
pub open spec fn spec_mime_kind_of_ext(ext: Option<Seq<u8>>) -> MimeKind {
    match ext {
        Option::Some(e) => if e == ext_html() {
            MimeKind::Html
        } else if e == ext_css() {
            MimeKind::Css
        } else if e == ext_js() {
            MimeKind::Js
        } else if e == ext_jpg() || e == ext_jpeg() {
            MimeKind::Jpeg
        } else if e == ext_png() {
            MimeKind::Png
        } else if e == ext_zip() {
            MimeKind::Zip
        } else {
            MimeKind::Other
        },
        Option::None => MimeKind::Other,
    }
}

/// The `Content-Type` value for each kind.
pub open spec fn spec_mime_value(k: MimeKind) -> Seq<char> {
    match k {
        MimeKind::Html => "text/html; charset=utf-8"@,
        MimeKind::Css => "text/css; charset=utf-8"@,
        MimeKind::Js => "text/javascript; charset=utf-8"@,
        MimeKind::Jpeg => "image/jpeg"@,
        MimeKind::Png => "image/png"@,
        MimeKind::Zip => "application/zip"@,
        MimeKind::Other => "application/octet-stream"@,
    }
}

/// The `Content-Type` value for a path, by the table over its extension.
pub open spec fn spec_content_type_for(path: Seq<u8>) -> Seq<char> {
    spec_mime_value(spec_mime_kind_of_ext(spec_extension(path)))
}

/// Returns the extension of `path`, as `spec_extension` describes it.
pub fn extension_of(path: &[u8]) -> (r: Option<Vec<u8>>)
    ensures
        match r {
            Option::Some(e) => spec_extension(path@) == Option::Some(e@),
            Option::None => spec_extension(path@) is None,
        },
{
    let n = path.len();
    let slash = find_last(path, SLASH);
    let start: usize = match slash {
        Option::Some(i) => i + 1,
        Option::None => 0,
    };
    proof {
        lemma_last_index_of_bounds(path@, SLASH);
        assert(start as int == last_index_of(path@, SLASH) + 1);
        lemma_last_index_of_suffix(path@, DOT, start as int);
        assert(spec_file_name(path@) =~= path@.subrange(start as int, path@.len() as int));
    }
    let dot = find_last(path, DOT);
    match dot {
        Option::Some(d) => {
            if d >= start && d - start >= 1 {
                let mut v: Vec<u8> = Vec::new();
                let mut j: usize = d + 1;
                while j < path.len()
                    invariant
                        d + 1 <= j <= path@.len(),
                        v@ == path@.subrange(d + 1, j as int),
                    decreases path@.len() - j,
                {
                    v.push(path[j]);
                    j = j + 1;
                }
                proof {
                    let name = spec_file_name(path@);
                    assert(last_index_of(name, DOT) == d - start);
                    assert(name.subrange(d - start + 1, name.len() as int) =~= path@.subrange(
                        d + 1,
                        path@.len() as int,
                    ));
                }
                Some(v)
            } else {
                None
            }
        },
        Option::None => None,
    }
}

/// Classifies a present extension by the table.
fn classify_ext(e: &Vec<u8>) -> (k: MimeKind)
    ensures
        k == spec_mime_kind_of_ext(Option::Some(e@)),
{
    if e.len() == 4 && e[0] == 104 && e[1] == 116 && e[2] == 109 && e[3] == 108 {
        proof {
            assert(e@ =~= ext_html());
        }
        MimeKind::Html
    } else if e.len() == 3 && e[0] == 99 && e[1] == 115 && e[2] == 115 {
        proof {
            assert(e@ =~= ext_css());
        }
        MimeKind::Css
    } else if e.len() == 2 && e[0] == 106 && e[1] == 115 {
        proof {
            assert(e@ =~= ext_js());
        }
        MimeKind::Js
    } else if e.len() == 3 && e[0] == 106 && e[1] == 112 && e[2] == 103 {
        proof {
            assert(e@ =~= ext_jpg());
        }
        MimeKind::Jpeg
    } else if e.len() == 4 && e[0] == 106 && e[1] == 112 && e[2] == 101 && e[3] == 103 {
        proof {
            assert(e@ =~= ext_jpeg());
        }
        MimeKind::Jpeg
    } else if e.len() == 3 && e[0] == 112 && e[1] == 110 && e[2] == 103 {
        proof {
            assert(e@ =~= ext_png());
        }
        MimeKind::Png
    } else if e.len() == 3 && e[0] == 122 && e[1] == 105 && e[2] == 112 {
        proof {
            assert(e@ =~= ext_zip());
        }
        MimeKind::Zip
    } else {
        MimeKind::Other
    }
}

/// Returns the content-type kind for a path.
pub fn mime_kind_for(path: &[u8]) -> (k: MimeKind)
    ensures
        k == spec_mime_kind_of_ext(spec_extension(path@)),
{
    let ext = extension_of(path);
    match &ext {
        Option::Some(e) => classify_ext(e),
        Option::None => MimeKind::Other,
    }
}

/// Returns the `Content-Type` value for a kind.
pub fn mime_value(k: MimeKind) -> (r: String)
    ensures
        r@ == spec_mime_value(k),
{
    match k {
        MimeKind::Html => "text/html; charset=utf-8".to_owned(),
        MimeKind::Css => "text/css; charset=utf-8".to_owned(),
        MimeKind::Js => "text/javascript; charset=utf-8".to_owned(),
        MimeKind::Jpeg => "image/jpeg".to_owned(),
        MimeKind::Png => "image/png".to_owned(),
        MimeKind::Zip => "application/zip".to_owned(),
        MimeKind::Other => "application/octet-stream".to_owned(),
    }
}

/// Returns the `Content-Type` value for a path.
pub fn content_type_for(path: &[u8]) -> (r: String)
    ensures
        r@ == spec_content_type_for(path@),
{
    mime_value(mime_kind_for(path))
}

} // verus!
