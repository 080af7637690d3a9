//! Client-side core of a file-hosting and URL-shortening service client.
//!
//! The library plans the HTTP requests that the service understands,
//! validates their inputs, and interprets the service's responses. The
//! actual transport (a blocking or a future-based HTTP engine) is supplied
//! by the caller; every request it must send is described here as plain
//! data with a proved shape.

use vstd::prelude::*;

pub mod bridge;
pub mod codec;
pub mod constants;
pub mod error;
pub mod json;
pub mod model;
pub mod request;

pub use error::Error;
pub use model::{FileUploadResponse, UploadedFile};
pub use bridge::hyper::OwoRequester as OwoHyperRequester;
pub use bridge::reqwest::OwoRequester as OwoReqwestRequester;

verus! {

} // verus!
