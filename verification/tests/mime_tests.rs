use fileserve::mime::{content_type_for, extension_of, mime_kind_for, MimeKind};

#[test]
fn extension_after_last_dot() {
    assert_eq!(extension_of(b"www/archive.tar.gz"), Some(b"gz".to_vec()));
}

#[test]
fn extension_of_plain_name() {
    assert_eq!(extension_of(b"page.html"), Some(b"html".to_vec()));
}

#[test]
fn no_extension_without_dot() {
    assert_eq!(extension_of(b"www/README"), None);
}

#[test]
fn hidden_file_has_no_extension() {
    assert_eq!(extension_of(b"www/.bashrc"), None);
}

#[test]
fn dot_in_directory_does_not_count() {
    assert_eq!(extension_of(b"www.d/README"), None);
}

#[test]
fn empty_extension_after_trailing_dot() {
    assert_eq!(extension_of(b"www/name."), Some(b"".to_vec()));
}

#[test]
fn html_content_type() {
    assert_eq!(content_type_for(b"www/a.html"), "text/html; charset=utf-8");
}

#[test]
fn css_content_type() {
    assert_eq!(content_type_for(b"www/a.css"), "text/css; charset=utf-8");
}

#[test]
fn js_content_type() {
    assert_eq!(content_type_for(b"www/a.js"), "text/javascript; charset=utf-8");
}

#[test]
fn jpg_content_type() {
    assert_eq!(content_type_for(b"www/a.jpg"), "image/jpeg");
}

#[test]
fn jpeg_content_type() {
    assert_eq!(content_type_for(b"www/a.jpeg"), "image/jpeg");
}

#[test]
fn png_content_type() {
    assert_eq!(content_type_for(b"www/a.png"), "image/png");
}

#[test]
fn zip_content_type() {
    assert_eq!(content_type_for(b"www/a.zip"), "application/zip");
}

#[test]
fn unknown_extension_is_octet_stream() {
    assert_eq!(content_type_for(b"www/a.txt"), "application/octet-stream");
}

#[test]
fn missing_extension_is_octet_stream() {
    assert_eq!(content_type_for(b"www/README"), "application/octet-stream");
}

#[test]
fn matching_is_case_sensitive() {
    assert_eq!(content_type_for(b"www/a.HTML"), "application/octet-stream");
}

#[test]
fn kinds_match_table() {
    assert_eq!(mime_kind_for(b"a.html"), MimeKind::Html);
    assert_eq!(mime_kind_for(b"a.css"), MimeKind::Css);
    assert_eq!(mime_kind_for(b"a.js"), MimeKind::Js);
    assert_eq!(mime_kind_for(b"a.jpg"), MimeKind::Jpeg);
    assert_eq!(mime_kind_for(b"a.jpeg"), MimeKind::Jpeg);
    assert_eq!(mime_kind_for(b"a.png"), MimeKind::Png);
    assert_eq!(mime_kind_for(b"a.zip"), MimeKind::Zip);
    assert_eq!(mime_kind_for(b"a.pdf"), MimeKind::Other);
}
