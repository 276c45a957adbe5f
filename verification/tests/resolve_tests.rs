use fileserve::resolve::resolve_path;

#[test]
fn joins_root_and_path() {
    assert_eq!(resolve_path(b"www", b"/index.html"), b"www/index.html".to_vec());
}

#[test]
fn keeps_trailing_separator_of_root() {
    assert_eq!(resolve_path(b"www/", b"/index.html"), b"www/index.html".to_vec());
}

#[test]
fn empty_root_yields_relative_path() {
    assert_eq!(resolve_path(b"", b"/index.html"), b"index.html".to_vec());
}

#[test]
fn root_slash_alone() {
    assert_eq!(resolve_path(b"/srv", b"/"), b"/srv/".to_vec());
}

#[test]
fn nested_path_kept_whole() {
    assert_eq!(resolve_path(b"root", b"/a/b/c.txt"), b"root/a/b/c.txt".to_vec());
}

#[test]
fn strips_only_one_leading_slash() {
    assert_eq!(resolve_path(b"root", b"//x"), b"root//x".to_vec());
}

#[test]
fn path_without_leading_slash_is_kept() {
    assert_eq!(resolve_path(b"root", b"x.png"), b"root/x.png".to_vec());
}

#[test]
fn traversal_segments_pass_through() {
    // No sanitization is performed: `..` segments survive resolution.
    assert_eq!(resolve_path(b"root", b"/../secret"), b"root/../secret".to_vec());
}
