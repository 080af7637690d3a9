//! The synchronous bridge: plans the requests a blocking HTTP engine must
//! send, and interprets what the engine handed back.
//!
//! The engine itself is the caller's. It receives a planned
//! [`HttpRequest`], carries it out, and hands the outcome back as a
//! [`TransportOutcome`]; everything decided on either side of that exchange
//! is proved here.

use vstd::prelude::*;
use vstd::string::StringExecFns;

use crate::constants::{upload_target, user_agent, spec_upload_target, MAX_FILES, USER_AGENT};
use crate::error::Error;
use crate::model::FileUploadResponse;
use crate::request::{HttpRequest, HttpRequestView, Method, Part, PartView, TransportOutcome};

verus! {

broadcast use vstd::std_specs::vec::group_vec_axioms;

/// The requester capability of the blocking bridge: the three operations
/// any conforming engine offers. The library plans and interprets; a
/// caller's engine type implements this trait by carrying the planned
/// requests out.
pub trait OwoRequester {
    /// Uploads a single file to the service.
    fn upload_file(&self, key: &str, file: Vec<u8>) -> Result<FileUploadResponse, Error>;

    /// Uploads up to [`MAX_FILES`] files to the service in one request.
    fn upload_files(&self, key: &str, files: Vec<Vec<u8>>) -> Result<FileUploadResponse, Error>;

    /// Shortens a URL via the service, returning the shortened link.
    fn shorten_url(&self, key: &str, url: &str) -> Result<String, Error>;
}

/// The parts of an upload body: one part per file, each under the form
/// field name the upload endpoint expects, in submission order.
pub open spec fn spec_upload_parts(files: Seq<Seq<u8>>) -> Seq<PartView> {
    files.map_values(|d: Seq<u8>| PartView { name: "files[]"@, data: d })
}

/// The views of a sequence of parts, elementwise.
pub open spec fn spec_part_views(parts: Seq<Part>) -> Seq<PartView> {
    parts.map_values(|p: Part| p@)
}

/// The request a single-file upload sends: one POST of the upload target
/// with a one-part body.
pub open spec fn spec_upload_file_request(key: Seq<char>, file: Seq<u8>) -> HttpRequestView {
    HttpRequestView {
        method: Method::Post,
        url: spec_upload_target(key),
        user_agent: USER_AGENT@,
        parts: seq![PartView { name: "files[]"@, data: file }],
    }
}

/// The outcome of planning a batch upload: a batch over the file limit is
/// refused outright, and any other batch becomes exactly one POST with one
/// part per file, in input order.
pub open spec fn spec_upload_files_request(key: Seq<char>, files: Seq<Seq<u8>>) -> Result<
    HttpRequestView,
    Error,
> {
    if files.len() > MAX_FILES {
        Err(Error::TooManyFiles)
    } else {
        Ok(
            HttpRequestView {
                method: Method::Post,
                url: spec_upload_target(key),
                user_agent: USER_AGENT@,
                parts: spec_upload_parts(files),
            },
        )
    }
}

/// Plans the request that uploads a single file.
pub fn upload_file(key: &str, file: Vec<u8>) -> (r: HttpRequest)
    ensures
        r@ == spec_upload_file_request(key@, file@),
{
    let mut parts: Vec<Part> = Vec::new();
    parts.push(Part { name: String::from_str("files[]"), data: file });
    let r = HttpRequest {
        method: Method::Post,
        url: upload_target(key),
        user_agent: user_agent(),
        parts,
    };
    proof {
        assert(r@.parts =~= spec_upload_file_request(key@, file@).parts);
        assert(r@ =~= spec_upload_file_request(key@, file@));
    }
    r
}

/// Plans the one request that uploads a batch of files, or refuses the
/// batch. A batch of more than [`MAX_FILES`] files is answered with
/// [`Error::TooManyFiles`] and plans no request at all; any other batch
/// becomes a single POST carrying one part per file, in input order.
pub fn upload_files(key: &str, files: Vec<Vec<u8>>) -> (r: Result<HttpRequest, Error>)
    ensures
        match spec_upload_files_request(key@, files.deep_view()) {
            Ok(m) => r matches Ok(req) && req@ == m,
            Err(e) => r matches Err(e2) && e2 == e,
        },
{
    if files.len() > MAX_FILES {
        return Err(Error::TooManyFiles);
    }
    let ghost fsv: Seq<Seq<u8>> = files.deep_view();
    let mut parts: Vec<Part> = Vec::new();
    let mut i: usize = 0;
    while i < files.len()
        invariant
            i <= files@.len(),
            fsv == files.deep_view(),
            fsv.len() == files@.len(),
            spec_part_views(parts@) =~= spec_upload_parts(fsv.take(i as int)),
        decreases files@.len() - i,
    {
        let data = files[i].clone();
        proof {
            assert(data@ =~= data.deep_view());
            assert(files@[i as int].deep_view() =~= files@[i as int]@);
            assert(data@ =~= fsv[i as int]);
        }
        let ghost prev = parts@;
        parts.push(Part { name: String::from_str("files[]"), data });
        proof {
            assert(spec_part_views(prev).len() == prev.len());
            assert(fsv.take(i as int).len() == i);
            assert(prev.len() == i);
            let pushed = parts@[i as int];
            assert(pushed.name@ == "files[]"@);
            assert(pushed.data@ == fsv[i as int]);
            assert forall|j: int| 0 <= j < parts@.len() implies spec_part_views(parts@)[j]
                == #[trigger] spec_upload_parts(fsv.take(i + 1))[j] by {
                assert(fsv.take(i + 1)[j] == fsv[j]);
                if j < i {
                    assert(parts@[j] == prev[j]);
                    assert(spec_part_views(prev)[j] == spec_upload_parts(fsv.take(i as int))[j]);
                }
            }
            assert(spec_part_views(parts@) =~= spec_upload_parts(fsv.take(i + 1)));
        }
        i += 1;
    }
    let ghost pseq = parts@;
    let r = HttpRequest {
        method: Method::Post,
        url: upload_target(key),
        user_agent: user_agent(),
        parts,
    };
    proof {
        assert(fsv.take(fsv.len() as int) =~= fsv);
        assert(r@.parts =~= spec_part_views(pseq));
        assert(r@ =~= spec_upload_files_request(key@, fsv)->Ok_0);
    }
    Ok(r)
}

/// Plans the request that shortens a URL: one GET of the shorten target
/// with no body.
pub fn shorten_url(key: &str, url: &str) -> (r: HttpRequest)
    ensures
        r@ == super::spec_shorten_request(url@, key@),
{
    let r = HttpRequest {
        method: Method::Get,
        url: crate::constants::shorten_target(url, key),
        user_agent: user_agent(),
        parts: Vec::new(),
    };
    proof {
        assert(r@.parts =~= Seq::<PartView>::empty());
        assert(r@ =~= super::spec_shorten_request(url@, key@));
    }
    r
}

/// Interprets what the engine handed back for a shorten request. The
/// service answers with the shortened URL as the plain response body, so a
/// body that was read in full is returned verbatim; a failure to send
/// surfaces the engine's error, and a failure to read the body a local
/// input/output error.
pub fn shorten_response(outcome: TransportOutcome) -> (r: Result<String, Error>)
    ensures
        outcome matches TransportOutcome::Body(b) ==> (r matches Ok(s) && s == b),
        outcome matches TransportOutcome::SendFailed(m) ==> (r matches Err(e) && e
            == Error::TransportError(m)),
        outcome matches TransportOutcome::ReadFailed(m) ==> (r matches Err(e) && e == Error::Io(
            m,
        )),
{
    match outcome {
        TransportOutcome::Body(b) => Ok(b),
        TransportOutcome::SendFailed(m) => Err(Error::TransportError(m)),
        TransportOutcome::ReadFailed(m) => Err(Error::Io(m)),
    }
}

/// Interprets what the engine handed back for an upload request. A body
/// that was read in full is decoded under the upload-response schema; a
/// failure to send surfaces the engine's error; and a failure to read the
/// body surfaces as a decode failure, the way the blocking engine's
/// stream-fed decoder reports one.
pub fn upload_response(outcome: TransportOutcome) -> (r: Result<FileUploadResponse, Error>)
    ensures
        outcome matches TransportOutcome::Body(b) ==> ((crate::codec::spec_decode_response(
            crate::json::json_of(b@),
        ) matches Some(m) ==> (r matches Ok(resp) && resp@ == m))
            && (crate::codec::spec_decode_response(crate::json::json_of(b@)) is None ==> (
        r matches Err(e) && e is Json))),
        outcome matches TransportOutcome::SendFailed(m) ==> (r matches Err(e) && e
            == Error::TransportError(m)),
        outcome matches TransportOutcome::ReadFailed(m) ==> (r matches Err(e) && e == Error::Json(
            m,
        )),
{
    match outcome {
        TransportOutcome::Body(b) => crate::codec::decode_upload_response(b.as_str()),
        TransportOutcome::SendFailed(m) => Err(Error::TransportError(m)),
        TransportOutcome::ReadFailed(m) => Err(Error::Json(m)),
    }
}

/// LAW: a single-file upload plans exactly the request that a batch upload
/// of the one-file batch plans — one request, one part.
pub proof fn lemma_upload_file_matches_batch(key: Seq<char>, file: Seq<u8>)
    ensures
        spec_upload_files_request(key, seq![file]) == Ok::<HttpRequestView, Error>(
            spec_upload_file_request(key, file),
        ),
{
    assert(spec_upload_parts(seq![file]) =~= seq![PartView { name: "files[]"@, data: file }]);
    assert(spec_upload_files_request(key, seq![file])->Ok_0 =~= spec_upload_file_request(
        key,
        file,
    ));
}

} // verus!
