//! Planned requests as plain data. A bridge hands one of these to whatever
//! HTTP engine the caller supplies; everything the engine must send — the
//! method, the target, the identifying header, and the multipart parts —
//! stands here with a proved shape.

use vstd::prelude::*;

verus! {

/// HTTP method of a planned request.
#[derive(Clone, Copy, Debug, PartialEq, Eq, Structural)]
pub enum Method {
    Get,
    Post,
}

/// One named part of a multipart body: raw file bytes under a form field
/// name.
#[derive(Clone, Debug, PartialEq, Eq)]
pub struct Part {
    /// The form field name of the part.
    pub name: String,
    /// The raw bytes of the part.
    pub data: Vec<u8>,
}

/// The mathematical value of a [`Part`].
#[verifier::ext_equal]
pub struct PartView {
    pub name: Seq<char>,
    pub data: Seq<u8>,
}

impl View for Part {
    type V = PartView;

    open spec fn view(&self) -> PartView {
        PartView { name: self.name@, data: self.data@ }
    }
}

/// A fully planned request: everything one call of the service needs, as
/// plain data. A GET carries no parts; a POST to the upload endpoint
/// carries one part per file.
#[derive(Clone, Debug, PartialEq, Eq)]
pub struct HttpRequest {
    /// The method to send with.
    pub method: Method,
    /// The full request target.
    pub url: String,
    /// The user-agent header value to attach.
    pub user_agent: String,
    /// The multipart parts of the body, in the order they must be sent.
    pub parts: Vec<Part>,
}

/// The mathematical value of an [`HttpRequest`].
#[verifier::ext_equal]
pub struct HttpRequestView {
    pub method: Method,
    pub url: Seq<char>,
    pub user_agent: Seq<char>,
    pub parts: Seq<PartView>,
}

impl View for HttpRequest {
    type V = HttpRequestView;

    open spec fn view(&self) -> HttpRequestView {
        HttpRequestView {
            method: self.method,
            url: self.url@,
            user_agent: self.user_agent@,
            parts: self.parts@.map_values(|p: Part| p@),
        }
    }
}

/// What the HTTP engine handed back for one carried-out request: the
/// response body read in full, or the step that failed with its message.
#[derive(Clone, Debug)]
pub enum TransportOutcome {
    /// The request went out and its whole response body was read.
    Body(String),
    /// The engine failed to build or send the request.
    SendFailed(String),
    /// The request went out, but reading the response body failed.
    ReadFailed(String),
}

} // verus!
