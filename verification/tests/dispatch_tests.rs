use fileserve::dispatch::{is_script_path, route, Action, Method};
use fileserve::response::{file_response, script_response, FileOutcome, ScriptOutcome};

#[test]
fn get_routes_to_resolved_file() {
    let a = route(Method::Get, b"/pages/a.html", b"www");
    assert_eq!(a, Action::ServeFile(b"www/pages/a.html".to_vec()));
}

#[test]
fn get_existing_file_is_served_with_contents() {
    let contents = b"<h1>hi</h1>".to_vec();
    let r = file_response(b"www/a.html", FileOutcome::Contents(contents.clone()));
    assert_eq!(r.status, 200);
    assert_eq!(r.content_type.as_deref(), Some("text/html; charset=utf-8"));
    assert_eq!(r.body, contents);
}

#[test]
fn get_missing_file_is_not_found() {
    let r = file_response(b"www/absent.txt", FileOutcome::Missing);
    assert_eq!(r.status, 404);
    assert_eq!(r.content_type, None);
    assert_eq!(r.body, b"Not Found".to_vec());
}

#[test]
fn get_unreadable_file_is_forbidden() {
    let r = file_response(b"www/locked.txt", FileOutcome::Denied);
    assert_eq!(r.status, 403);
    assert_eq!(r.content_type, None);
    assert!(r.body.is_empty());
}

#[test]
fn post_under_scripts_routes_to_script() {
    let a = route(Method::Post, b"/scripts/hello.sh", b"root");
    assert_eq!(a, Action::RunScript(b"root/scripts/hello.sh".to_vec()));
}

#[test]
fn post_completed_script_returns_its_stdout() {
    let out = b"output line\n".to_vec();
    let r = script_response(ScriptOutcome::Ran(out.clone()));
    assert_eq!(r.status, 200);
    assert_eq!(r.content_type, None);
    assert_eq!(r.body, out);
}

#[test]
fn post_script_with_empty_stdout_is_still_ok() {
    // A script that ran but printed nothing (or failed on its own terms)
    // still answers 200: the exit status is never consulted.
    let r = script_response(ScriptOutcome::Ran(Vec::new()));
    assert_eq!(r.status, 200);
    assert!(r.body.is_empty());
}

#[test]
fn post_missing_script_is_not_found() {
    let r = script_response(ScriptOutcome::Missing);
    assert_eq!(r.status, 404);
    assert_eq!(r.body, b"Not Found".to_vec());
}

#[test]
fn post_spawn_failure_is_internal_error() {
    let r = script_response(ScriptOutcome::SpawnFailed);
    assert_eq!(r.status, 500);
    assert_eq!(r.content_type, None);
    assert!(r.body.is_empty());
}

#[test]
fn post_outside_scripts_prefix_is_not_found() {
    // 404 even though the path may exist as a file: the decision never
    // consults the filesystem.
    let a = route(Method::Post, b"/notscripts/x", b"root");
    match a {
        Action::Respond(r) => {
            assert_eq!(r.status, 404);
            assert_eq!(r.body, b"Not Found".to_vec());
        }
        _ => panic!("a POST outside /scripts/ must be answered at once"),
    }
}

#[test]
fn post_to_bare_scripts_dir_is_not_found() {
    // "/scripts" without the trailing slash does not carry the prefix.
    let a = route(Method::Post, b"/scripts", b"root");
    match a {
        Action::Respond(r) => assert_eq!(r.status, 404),
        _ => panic!("the prefix check must require the trailing slash"),
    }
}

#[test]
fn delete_is_not_found_for_any_path() {
    // DELETE (and every method besides GET and POST) maps to Method::Other.
    for path in [&b"/a.html"[..], b"/scripts/hello.sh", b"/", b"/anything"] {
        let a = route(Method::Other, path, b"root");
        match a {
            Action::Respond(r) => {
                assert_eq!(r.status, 404);
                assert_eq!(r.body, b"Not Found".to_vec());
            }
            _ => panic!("other methods must be answered at once"),
        }
    }
}

#[test]
fn script_prefix_check() {
    assert!(is_script_path(b"/scripts/"));
    assert!(is_script_path(b"/scripts/a/b"));
    assert!(!is_script_path(b"/scripts"));
    assert!(!is_script_path(b"/script/x"));
    assert!(!is_script_path(b"/Scripts/x"));
    assert!(!is_script_path(b""));
}

#[test]
fn repeated_gets_are_identical() {
    let data = b"same bytes".to_vec();
    let a1 = route(Method::Get, b"/f.css", b"www");
    let a2 = route(Method::Get, b"/f.css", b"www");
    assert_eq!(a1, a2);
    let r1 = file_response(b"www/f.css", FileOutcome::Contents(data.clone()));
    let r2 = file_response(b"www/f.css", FileOutcome::Contents(data));
    assert_eq!(r1, r2);
}

#[test]
fn repeated_posts_serve_each_runs_output() {
    // Each response carries the output of its own execution: two runs with
    // different outputs are answered differently, so no output is cached.
    let r1 = script_response(ScriptOutcome::Ran(b"first run".to_vec()));
    let r2 = script_response(ScriptOutcome::Ran(b"second run".to_vec()));
    assert_eq!(r1.body, b"first run".to_vec());
    assert_eq!(r2.body, b"second run".to_vec());
    assert_ne!(r1, r2);
}
