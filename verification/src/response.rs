//! HTTP responses and their construction from filesystem and process
//! outcomes.
//!
//! The server binary performs the reads and the process spawns; it reports
//! what happened as a [`FileOutcome`] or a [`ScriptOutcome`], and the
//! functions here turn each outcome into the one response the dispatcher
//! owes for it.

use vstd::prelude::*;
use crate::mime::{content_type_for, spec_content_type_for};

verus! {

/// Status code of a successful response.
pub const STATUS_OK: u16 = 200;

/// Status code for a file that exists but cannot be read.
pub const STATUS_FORBIDDEN: u16 = 403;

/// Status code for everything the server does not serve.
pub const STATUS_NOT_FOUND: u16 = 404;

/// Status code for a script that could not be spawned.
pub const STATUS_INTERNAL_ERROR: u16 = 500;

/// An HTTP response: a status code, an optional `Content-Type` header value,
/// and a byte body.  No other headers are ever set.
#[derive(Clone, Debug, PartialEq, Eq)]
pub struct HttpResponse {
    pub status: u16,
    pub content_type: Option<String>,
    pub body: Vec<u8>,
}

/// The mathematical value of a response.
#[verifier::ext_equal]
pub struct SpecResponse {
    pub status: int,
    pub content_type: Option<Seq<char>>,
    pub body: Seq<u8>,
}

impl View for HttpResponse {
    type V = SpecResponse;

    open spec fn view(&self) -> SpecResponse {
        SpecResponse {
            status: self.status as int,
            content_type: match self.content_type {
                Option::Some(s) => Option::Some(s@),
                Option::None => Option::None,
            },
            body: self.body@,
        }
    }
}

/// `Not Found` as bytes: the fixed body of every 404 response.
pub open spec fn spec_not_found_body() -> Seq<u8> {
    seq![78u8, 111u8, 116u8, 32u8, 70u8, 111u8, 117u8, 110u8, 100u8]
}

/// The one 404 response: status 404, no `Content-Type`, body `Not Found`.
pub open spec fn spec_not_found() -> SpecResponse {
    SpecResponse { status: 404, content_type: Option::None, body: spec_not_found_body() }
}

/// Builds the fixed 404 response.
pub fn not_found_response() -> (r: HttpResponse)
    ensures
        r@ == spec_not_found(),
{
    let mut body: Vec<u8> = Vec::new();
    body.push(78);
    body.push(111);
    body.push(116);
    body.push(32);
    body.push(70);
    body.push(111);
    body.push(117);
    body.push(110);
    body.push(100);
    proof {
        assert(body@ =~= spec_not_found_body());
    }
    let r = HttpResponse { status: STATUS_NOT_FOUND, content_type: None, body };
    proof {
        assert(r@ =~= spec_not_found());
    }
    r
}

/// What the filesystem reported when a file was to be served.
pub enum FileOutcome {
    /// No regular file stands at the resolved path.
    Missing,
    /// The file was read in full; these are its bytes.
    Contents(Vec<u8>),
    /// The file exists but reading it failed.
    Denied,
}

/// The mathematical value of a file outcome.
pub enum SpecFileOutcome {
    Missing,
    Contents(Seq<u8>),
    Denied,
}

impl View for FileOutcome {
    type V = SpecFileOutcome;

    open spec fn view(&self) -> SpecFileOutcome {
        match self {
            FileOutcome::Missing => SpecFileOutcome::Missing,
            FileOutcome::Contents(data) => SpecFileOutcome::Contents(data@),
            FileOutcome::Denied => SpecFileOutcome::Denied,
        }
    }
}

/// What running a script came to.
pub enum ScriptOutcome {
    /// No regular file stands at the resolved path.
    Missing,
    /// The process ran to completion; these are its captured standard-output
    /// bytes, whatever its exit status was.
    Ran(Vec<u8>),
    /// The process could not be spawned or awaited.
    SpawnFailed,
}

/// The mathematical value of a script outcome.
pub enum SpecScriptOutcome {
    Missing,
    Ran(Seq<u8>),
    SpawnFailed,
}

impl View for ScriptOutcome {
    type V = SpecScriptOutcome;

    open spec fn view(&self) -> SpecScriptOutcome {
        match self {
            ScriptOutcome::Missing => SpecScriptOutcome::Missing,
            ScriptOutcome::Ran(out) => SpecScriptOutcome::Ran(out@),
            ScriptOutcome::SpawnFailed => SpecScriptOutcome::SpawnFailed,
        }
    }
}

/// The response owed for a file outcome: a missing file is 404 `Not Found`;
/// contents are served with status 200 and the content type of the path's
/// extension; a denied read is 403 with an empty body.
pub open spec fn spec_file_response(fs_path: Seq<u8>, o: SpecFileOutcome) -> SpecResponse {
    match o {
        SpecFileOutcome::Missing => spec_not_found(),
        SpecFileOutcome::Contents(data) => SpecResponse {
            status: 200,
            content_type: Option::Some(spec_content_type_for(fs_path)),
            body: data,
        },
        SpecFileOutcome::Denied => SpecResponse {
            status: 403,
            content_type: Option::None,
            body: Seq::empty(),
        },
    }
}

/// The response owed for a script outcome: a missing script is 404
/// `Not Found`; a completed process answers 200 with its standard output as
/// the body, irrespective of its exit status; a failed spawn is 500 with an
/// empty body.
pub open spec fn spec_script_response(o: SpecScriptOutcome) -> SpecResponse {
    match o {
        SpecScriptOutcome::Missing => spec_not_found(),
        SpecScriptOutcome::Ran(out) => SpecResponse {
            status: 200,
            content_type: Option::None,
            body: out,
        },
        SpecScriptOutcome::SpawnFailed => SpecResponse {
            status: 500,
            content_type: Option::None,
            body: Seq::empty(),
        },
    }
}

/// Builds the response for a file outcome at `fs_path`.
pub fn file_response(fs_path: &[u8], outcome: FileOutcome) -> (r: HttpResponse)
    ensures
        r@ == spec_file_response(fs_path@, outcome@),
{
    match outcome {
        FileOutcome::Missing => not_found_response(),
        FileOutcome::Contents(data) => HttpResponse {
            status: STATUS_OK,
            content_type: Some(content_type_for(fs_path)),
            body: data,
        },
        FileOutcome::Denied => HttpResponse {
            status: STATUS_FORBIDDEN,
            content_type: None,
            body: Vec::new(),
        },
    }
}

/// Builds the response for a script outcome.
pub fn script_response(outcome: ScriptOutcome) -> (r: HttpResponse)
    ensures
        r@ == spec_script_response(outcome@),
{
    match outcome {
        ScriptOutcome::Missing => not_found_response(),
        ScriptOutcome::Ran(out) => HttpResponse {
            status: STATUS_OK,
            content_type: None,
            body: out,
        },
        ScriptOutcome::SpawnFailed => HttpResponse {
            status: STATUS_INTERNAL_ERROR,
            content_type: None,
            body: Vec::new(),
        },
    }
}

} // verus!
