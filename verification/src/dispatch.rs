//! The request dispatcher: classifying a request and naming the one action
//! it calls for.
//!
//! A `GET` serves the file at the resolved path.  A `POST` runs the resolved
//! file as a script, but only under the `/scripts/` URL prefix; outside that
//! prefix it is answered 404 at once, whatever is on disk.  Every other
//! method is answered 404.  The decision depends on nothing but the method,
//! the URL path and the root directory.

use vstd::prelude::*;
use crate::resolve::{resolve_path, spec_resolve};
use crate::response::{not_found_response, spec_not_found, HttpResponse, SpecResponse};

verus! {

/// The methods the dispatcher distinguishes.  Everything that is neither
/// `GET` nor `POST` is `Other`.
#[derive(Clone, Copy, Debug, PartialEq, Eq, Structural)]
pub enum Method {
    Get,
    Post,
    Other,
}

/// What a request calls for: reading a file, running a script, or an
/// immediate response with no look at the filesystem.
#[derive(Clone, Debug, PartialEq, Eq)]
pub enum Action {
    /// Serve the regular file at this filesystem path.
    ServeFile(Vec<u8>),
    /// Run the regular file at this filesystem path and capture its output.
    RunScript(Vec<u8>),
    /// Send this response as it stands.
    Respond(HttpResponse),
}

/// The mathematical value of an action.
pub enum SpecAction {
    ServeFile(Seq<u8>),
    RunScript(Seq<u8>),
    Respond(SpecResponse),
}

impl View for Action {
    type V = SpecAction;

    open spec fn view(&self) -> SpecAction {
        match self {
            Action::ServeFile(p) => SpecAction::ServeFile(p@),
            Action::RunScript(p) => SpecAction::RunScript(p@),
            Action::Respond(r) => SpecAction::Respond(r@),
        }
    }
}

/// `/scripts/` as bytes.
pub open spec fn spec_scripts_prefix() -> Seq<u8> {
    seq![47u8, 115u8, 99u8, 114u8, 105u8, 112u8, 116u8, 115u8, 47u8]
}

/// Whether a URL path begins with the literal prefix `/scripts/`.
pub open spec fn spec_is_script_path(path: Seq<u8>) -> bool {
    path.len() >= 9 && path.subrange(0, 9) == spec_scripts_prefix()
}

/// Returns whether `url_path` begins with `/scripts/`.
pub fn is_script_path(url_path: &[u8]) -> (r: bool)
    ensures
        r == spec_is_script_path(url_path@),
{
    if url_path.len() < 9 {
        proof {
            assert(spec_scripts_prefix().len() == 9);
        }
        return false;
    }
    let r = url_path[0] == 47 && url_path[1] == 115 && url_path[2] == 99 && url_path[3] == 114
        && url_path[4] == 105 && url_path[5] == 112 && url_path[6] == 116 && url_path[7] == 115
        && url_path[8] == 47;
    proof {
        if r {
            assert(url_path@.subrange(0, 9) =~= spec_scripts_prefix());
        } else {
            assert(url_path@.subrange(0, 9) != spec_scripts_prefix()) by {
                if url_path@.subrange(0, 9) == spec_scripts_prefix() {
                    assert(forall|k: int|
                        0 <= k < 9 ==> url_path@[k] == #[trigger] spec_scripts_prefix()[k]);
                }
            }
        }
    }
    r
}

/// The action for a request: the whole method-and-prefix decision of the
/// dispatcher, as a function of the request and the root directory alone.
pub open spec fn spec_route(m: Method, path: Seq<u8>, root: Seq<u8>) -> SpecAction {
    match m {
        Method::Get => SpecAction::ServeFile(spec_resolve(root, path)),
        Method::Post => if spec_is_script_path(path) {
            SpecAction::RunScript(spec_resolve(root, path))
        } else {
            SpecAction::Respond(spec_not_found())
        },
        Method::Other => SpecAction::Respond(spec_not_found()),
    }
}

/// Classifies a request and returns the action it calls for.
pub fn route(method: Method, url_path: &[u8], root: &[u8]) -> (a: Action)
    ensures
        a@ == spec_route(method, url_path@, root@),
{
    match method {
        Method::Get => Action::ServeFile(resolve_path(root, url_path)),
        Method::Post => if is_script_path(url_path) {
            Action::RunScript(resolve_path(root, url_path))
        } else {
            Action::Respond(not_found_response())
        },
        Method::Other => Action::Respond(not_found_response()),
    }
}

} // verus!
