//! Fixed values the service's API prescribes: the request targets, the
//! per-request file limit, and the identifying user-agent header value.

use vstd::prelude::*;
use vstd::string::StringExecFns;

verus! {

/// The maximum number of files that may be uploaded in one request.
pub const MAX_FILES: usize = 3;

/// The user agent attached to every request the library plans.
pub const USER_AGENT: &'static str = "WhatsThisClient (https://github.com/whats-this/owo.rs, 0.2.0)";

/// The target of an upload request: the upload endpoint with the service
/// key as its one query parameter.
pub open spec fn spec_upload_target(key: Seq<char>) -> Seq<char> {
    "https://api.awau.moe/upload/pomf?key="@ + key
}

/// The target of a shorten request: the shortener endpoint with the URL to
/// shorten and the service key as query parameters.
pub open spec fn spec_shorten_target(url: Seq<char>, key: Seq<char>) -> Seq<char> {
    "https://api.awau.moe/shorten/polr?action=shorten&url="@ + url + "&key="@ + key
}

/// Builds the upload target for `key`.
pub fn upload_target(key: &str) -> (r: String)
    ensures
        r@ == spec_upload_target(key@),
{
    let mut s = String::from_str("https://api.awau.moe/upload/pomf?key=");
    s.append(key);
    s
}

/// Builds the shorten target for `url` and `key`.
pub fn shorten_target(url: &str, key: &str) -> (r: String)
    ensures
        r@ == spec_shorten_target(url@, key@),
{
    let mut s = String::from_str("https://api.awau.moe/shorten/polr?action=shorten&url=");
    s.append(url);
    s.append("&key=");
    s.append(key);
    s
}

/// The user agent as an owned string.
pub fn user_agent() -> (r: String)
    ensures
        r@ == USER_AGENT@,
{
    String::from_str(USER_AGENT)
}

} // verus!
