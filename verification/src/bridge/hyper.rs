//! The asynchronous bridge: plans the one operation a future-based HTTP
//! engine supports — URL shortening — and decides the construction of its
//! client.
//!
//! This bridge builds a typed request target, so a key or URL whose
//! interpolation does not parse as a URI is refused before anything is
//! sent. Multipart upload is not offered here: the future-based ecosystem
//! this bridge is written for has no multipart support, a permanent
//! capability gap of this bridge rather than an oversight.

use vstd::prelude::*;

use crate::constants::{shorten_target, user_agent, spec_shorten_target};
use crate::error::Error;
use crate::request::{HttpRequest, Method, PartView};

verus! {

/// The requester capability of the future-based bridge: shortening only.
/// What a conforming engine returns is a pending response — a handle the
/// caller drives to completion — whose type is the engine's own.
pub trait OwoRequester {
    /// The engine's handle to an in-flight response.
    type Pending;

    /// Shortens a URL via the service without blocking, returning the
    /// pending response.
    fn shorten_url(&self, key: &str, url: &str) -> Result<Self::Pending, Error>;
}

/// Whether a text parses as a request target. What the parser accepts is
/// its own; the library only depends on the answer being a function of the
/// text.
pub uninterp spec fn uri_ok(s: Seq<char>) -> bool;

/// Relies on `http::Uri`'s `FromStr` impl (re-exported as `hyper::Uri`):
/// whether a text parses as a URI, and the parse error's text, depend on
/// the text alone.
#[verifier::external_body]
fn check_uri(s: &str) -> (r: Result<(), String>)
    ensures
        r is Ok <==> uri_ok(s@),
{
    match s.parse::<hyper::Uri>() {
        Ok(_) => Ok(()),
        Err(e) => Err(e.to_string()),
    }
}

/// Plans the request that shortens a URL, refusing a target that does not
/// parse. A target that parses becomes the same GET the synchronous bridge
/// plans; one that does not is answered with [`Error::InvalidUri`] and
/// plans no request at all.
pub fn shorten_url(key: &str, url: &str) -> (r: Result<HttpRequest, Error>)
    ensures
        uri_ok(spec_shorten_target(url@, key@)) ==> (r matches Ok(req) && req@
            == super::spec_shorten_request(url@, key@)),
        !uri_ok(spec_shorten_target(url@, key@)) ==> (r matches Err(e) && e is InvalidUri),
{
    let target = shorten_target(url, key);
    match check_uri(target.as_str()) {
        Ok(()) => {
            let req = HttpRequest {
                method: Method::Get,
                url: target,
                user_agent: user_agent(),
                parts: Vec::new(),
            };
            proof {
                assert(req@.parts =~= Seq::<PartView>::empty());
                assert(req@ =~= super::spec_shorten_request(url@, key@));
            }
            Ok(req)
        },
        Err(m) => Err(Error::InvalidUri(m)),
    }
}

/// Finishes constructing this bridge's client from the outcome of building
/// its secure-transport connector. A connector that failed to build
/// becomes [`Error::TlsSetup`], and no client — so no request — comes of
/// it; a connector that built is paired with the key unchanged.
pub fn client_setup<C>(key: String, connector: Result<C, String>) -> (r: Result<(C, String), Error>)
    ensures
        connector matches Err(m) ==> (r matches Err(e) && e == Error::TlsSetup(m)),
        connector matches Ok(c) ==> (r matches Ok(p) && p.0 == c && p.1 == key),
{
    match connector {
        Ok(c) => Ok((c, key)),
        Err(m) => Err(Error::TlsSetup(m)),
    }
}

} // verus!
