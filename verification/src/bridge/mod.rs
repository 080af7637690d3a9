//! Bridging support between the library and the caller's HTTP engines.
//!
//! A bridge plans requests and interprets what came back; the engine that
//! carries a planned request out is the caller's. The blocking engine's
//! bridge lives in [`reqwest`], the future-based engine's in [`hyper`].

use vstd::prelude::*;

use crate::constants::{spec_shorten_target, USER_AGENT};
use crate::request::{HttpRequestView, Method};

pub mod hyper;
pub mod reqwest;

verus! {

/// The one request a shorten operation sends, whichever bridge plans it: a
/// GET of the shorten target, carrying the fixed user agent and no body.
pub open spec fn spec_shorten_request(url: Seq<char>, key: Seq<char>) -> HttpRequestView {
    HttpRequestView {
        method: Method::Get,
        url: spec_shorten_target(url, key),
        user_agent: USER_AGENT@,
        parts: Seq::empty(),
    }
}

/// LAW: every request either bridge plans — a single upload, a batch
/// upload, or a shorten from either bridge — carries the fixed user-agent
/// header value.
pub proof fn lemma_requests_carry_user_agent(
    key: Seq<char>,
    url: Seq<char>,
    file: Seq<u8>,
    files: Seq<Seq<u8>>,
)
    ensures
        reqwest::spec_upload_file_request(key, file).user_agent == USER_AGENT@,
        reqwest::spec_upload_files_request(key, files) matches Ok(m) ==> m.user_agent
            == USER_AGENT@,
        spec_shorten_request(url, key).user_agent == USER_AGENT@,
{
}

} // verus!
