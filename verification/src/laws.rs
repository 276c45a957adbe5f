//! The dispatcher's guarantees, each stated once over the whole input space.

use vstd::prelude::*;
use crate::dispatch::{spec_is_script_path, spec_route, Method, SpecAction};
use crate::mime::spec_content_type_for;
use crate::resolve::spec_resolve;
use crate::response::{
    spec_file_response, spec_not_found, spec_not_found_body, spec_script_response,
    SpecFileOutcome, SpecResponse, SpecScriptOutcome,
};

verus! {

/// A `GET` for any path is dispatched to the resolved file, and when that
/// file's contents are read in full the response has status 200, the
/// `Content-Type` of the table over the resolved path's extension, and the
/// file's bytes as the body.
pub proof fn lemma_get_serves_file(path: Seq<u8>, root: Seq<u8>, data: Seq<u8>)
    ensures
        spec_route(Method::Get, path, root) == SpecAction::ServeFile(spec_resolve(root, path)),
        ({
            let r = spec_file_response(spec_resolve(root, path), SpecFileOutcome::Contents(data));
            &&& r.status == 200
            &&& r.content_type == Option::Some(spec_content_type_for(spec_resolve(root, path)))
            &&& r.body == data
        }),
{
}

/// A path with no regular file under it is answered 404 with the fixed
/// `Not Found` body and no `Content-Type`.
pub proof fn lemma_get_missing_is_not_found(fs_path: Seq<u8>)
    ensures
        spec_file_response(fs_path, SpecFileOutcome::Missing) == spec_not_found(),
        spec_not_found().status == 404,
        spec_not_found().content_type is None,
        spec_not_found().body == spec_not_found_body(),
{
}

/// A file that exists but cannot be read is answered 403 with an empty body.
pub proof fn lemma_get_denied_is_forbidden(fs_path: Seq<u8>)
    ensures
        ({
            let r = spec_file_response(fs_path, SpecFileOutcome::Denied);
            &&& r.status == 403
            &&& r.content_type is None
            &&& r.body.len() == 0
        }),
{
}

/// A `POST` under the `/scripts/` prefix is dispatched to running the
/// resolved file, and a process that ran to completion is answered 200 with
/// its captured standard output as the body.  The exit status is not an
/// input of the response at all, so the answer is the same whatever it was.
pub proof fn lemma_post_runs_script(path: Seq<u8>, root: Seq<u8>, out: Seq<u8>)
    requires
        spec_is_script_path(path),
    ensures
        spec_route(Method::Post, path, root) == SpecAction::RunScript(spec_resolve(root, path)),
        ({
            let r = spec_script_response(SpecScriptOutcome::Ran(out));
            &&& r.status == 200
            &&& r.content_type is None
            &&& r.body == out
        }),
{
}

/// A `POST` to a script path with no regular file under it is answered 404
/// with the fixed `Not Found` body.
pub proof fn lemma_post_missing_is_not_found()
    ensures
        spec_script_response(SpecScriptOutcome::Missing) == spec_not_found(),
{
}

/// A `POST` outside the `/scripts/` prefix is answered 404 at once.  The
/// dispatch takes no filesystem input, so this holds even where the resolved
/// path exists as a file.
pub proof fn lemma_post_prefix_mismatch(path: Seq<u8>, root: Seq<u8>)
    requires
        !spec_is_script_path(path),
    ensures
        spec_route(Method::Post, path, root) == SpecAction::Respond(spec_not_found()),
{
}

/// Any method other than `GET` and `POST` is answered 404 for every path.
pub proof fn lemma_other_method_is_not_found(path: Seq<u8>, root: Seq<u8>)
    ensures
        spec_route(Method::Other, path, root) == SpecAction::Respond(spec_not_found()),
{
}

/// Repeated identical `GET`s on an unchanged file receive identical
/// responses: the response is a function of the URL path, the root and the
/// file outcome alone, so two requests with equal inputs are answered
/// equally.
pub proof fn lemma_get_idempotent(
    path: Seq<u8>,
    root: Seq<u8>,
    o: SpecFileOutcome,
    r1: SpecResponse,
    r2: SpecResponse,
)
    requires
        r1 == spec_file_response(spec_resolve(root, path), o),
        r2 == spec_file_response(spec_resolve(root, path), o),
    ensures
        r1 == r2,
{
}

/// Repeated `POST`s re-execute the script: each response carries the output
/// of its own execution, so runs with different outputs are answered
/// differently and no earlier output is ever replayed.
pub proof fn lemma_post_reexecutes(out1: Seq<u8>, out2: Seq<u8>)
    ensures
        spec_script_response(SpecScriptOutcome::Ran(out1)).body == out1,
        out1 != out2 ==> spec_script_response(SpecScriptOutcome::Ran(out1))
            != spec_script_response(SpecScriptOutcome::Ran(out2)),
{
}

} // verus!
